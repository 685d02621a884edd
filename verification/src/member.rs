//! What a value needs so that a whitelist or a ledger can hold it.

use vstd::prelude::*;

verus! {

/// A value that is told apart from others by its view.
pub trait Member: View + Sized {
    /// Whether the two values have the same view.
    fn same(&self, other: &Self) -> (equal: bool)
        ensures
            equal == (self@ == other@),
    ;
}

} // verus!
