use vstd::prelude::*;

verus! {

/// The error of every `try_*` accessor: the calling thread is not the thread
/// that wrapped the value. It carries nothing beyond its kind.
#[derive(Debug, Clone, Copy, PartialEq, Eq, Structural)]
pub struct InvalidThreadAccess;

impl InvalidThreadAccess {
    /// A short human readable description of the error.
    pub fn message(&self) -> (r: &'static str)
        ensures
            r@ == "fragile value accessed from a foreign thread"@,
    {
        "fragile value accessed from a foreign thread"
    }
}

} // verus!
