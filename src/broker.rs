use vstd::prelude::*;

use crate::permissions::Permissions;
use crate::session::{ProviderSession, RpcError};
use crate::store::{Datapoint, EntryStore};

verus! {

/// The broker service: the one entry store that all sessions share, and the
/// calls that this broker answers.
pub struct DataBroker {
    pub store: EntryStore,
}

impl DataBroker {
    /// A broker with no entries.
    pub fn new() -> (r: DataBroker)
        ensures
            r.store.wf(),
            r.store@.entries.len() == 0,
    {
        DataBroker { store: EntryStore::new() }
    }

    /// Opens a provider stream for a caller with the grant `permissions`;
    /// fails with `Unauthenticated` where there is none.
    pub fn open_provider_stream(&self, permissions: Option<Permissions>) -> (r: Result<
        ProviderSession,
        RpcError,
    >)
        ensures
            match permissions {
                None => r == Err::<ProviderSession, RpcError>(RpcError::Unauthenticated),
                Some(p) => r is Ok && r->Ok_0.open && r->Ok_0.permissions@ == p@
                    && r->Ok_0.provided@.len() == 0,
            },
    {
        ProviderSession::open(permissions)
    }

    /// Reading one value is not provided.
    pub fn get_value(&self) -> (r: Result<Datapoint, RpcError>)
        ensures
            r == Err::<Datapoint, RpcError>(RpcError::Unimplemented),
    {
        Err(RpcError::Unimplemented)
    }

    /// Reading several values is not provided.
    pub fn get_values(&self) -> (r: Result<Vec<Datapoint>, RpcError>)
        ensures
            r == Err::<Vec<Datapoint>, RpcError>(RpcError::Unimplemented),
    {
        Err(RpcError::Unimplemented)
    }

    /// Listing values is not provided.
    pub fn list_values(&self) -> (r: Result<Vec<Datapoint>, RpcError>)
        ensures
            r == Err::<Vec<Datapoint>, RpcError>(RpcError::Unimplemented),
    {
        Err(RpcError::Unimplemented)
    }

    /// Subscribing to changes is not provided.
    pub fn subscribe(&self) -> (r: Result<(), RpcError>)
        ensures
            r == Err::<(), RpcError>(RpcError::Unimplemented),
    {
        Err(RpcError::Unimplemented)
    }

    /// Actuating one signal is not provided.
    pub fn actuate(&self) -> (r: Result<(), RpcError>)
        ensures
            r == Err::<(), RpcError>(RpcError::Unimplemented),
    {
        Err(RpcError::Unimplemented)
    }

    /// Actuating several signals is not provided.
    pub fn batch_actuate(&self) -> (r: Result<(), RpcError>)
        ensures
            r == Err::<(), RpcError>(RpcError::Unimplemented),
    {
        Err(RpcError::Unimplemented)
    }

    /// Listing metadata is not provided.
    pub fn list_metadata(&self) -> (r: Result<(), RpcError>)
        ensures
            r == Err::<(), RpcError>(RpcError::Unimplemented),
    {
        Err(RpcError::Unimplemented)
    }

    /// Publishing one value outside a provider stream is not provided.
    pub fn publish_value(&self) -> (r: Result<(), RpcError>)
        ensures
            r == Err::<(), RpcError>(RpcError::Unimplemented),
    {
        Err(RpcError::Unimplemented)
    }

    /// The server information query is not provided.
    pub fn get_server_info(&self) -> (r: Result<(), RpcError>)
        ensures
            r == Err::<(), RpcError>(RpcError::Unimplemented),
    {
        Err(RpcError::Unimplemented)
    }
}

} // verus!
