//! Addresses of accounts on a foreign chain.

use vstd::prelude::*;
use crate::member::Member;

verus! {

/// The twenty bytes that name an account on a foreign chain.
#[derive(Clone, Copy, Debug)]
pub struct ForeignAddress(pub [u8; 20]);

impl View for ForeignAddress {
    type V = Seq<u8>;

    open spec fn view(&self) -> Seq<u8> {
        self.0@
    }
}

impl Member for ForeignAddress {
    fn same(&self, other: &ForeignAddress) -> (equal: bool) {
        let mut i: usize = 0;
        while i < 20
            invariant
                i <= 20,
                forall|k: int| 0 <= k < i ==> self.0[k] == other.0[k],
            decreases 20 - i,
        {
            if self.0[i] != other.0[i] {
                return false;
            }
            i += 1;
        }
        assert(self.0@ =~= other.0@);
        true
    }
}

} // verus!
