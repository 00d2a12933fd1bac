use vstd::prelude::*;

verus! {

broadcast use vstd::string::to_string_from_display_ensures_for_str;

/// A signal as a client names it: its entry id and its path.
#[derive(Clone, Debug)]
pub struct Signal {
    pub id: i32,
    pub path: String,
}

/// Metadata of a signal, as a client holds it.
#[derive(Debug)]
pub struct Metadata {}

impl Signal {
    /// The signal with entry id `id` and path `path`.
    pub fn new(id: i32, path: &str) -> (r: Signal)
        ensures
            r.id == id,
            r.path@ == path@,
    {
        Signal { path: path.to_string(), id }
    }
}

} // verus!
