use vstd::prelude::*;

verus! {

/// A failure observed when broadcasting a transaction: the chain's response
/// code together with its description, kept exactly as reported so that every
/// distinct (code, description) combination stays individually observable.
#[derive(Clone, Debug)]
pub struct BroadcastError {
    pub code: u32,
    pub description: String,
}

impl BroadcastError {
    pub fn new(code: u32, description: &str) -> (r: Self)
        ensures
            r.code == code,
            r.description@ == description@,
    {
        BroadcastError { code, description: description.to_owned() }
    }
}

} // verus!
