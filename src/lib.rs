pub mod value;
pub mod permissions;
pub mod store;
pub mod wire;
pub mod session;
pub mod broker;
pub mod types;
pub mod laws;
