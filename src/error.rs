use vstd::prelude::*;

verus! {

/// What can go wrong when a workspace is built.
#[derive(Debug, PartialEq, Eq)]
pub enum Error {
    /// The bounding rectangle is unusable; the text says which bound it breaks.
    IllegalSize(String),
}

} // verus!
