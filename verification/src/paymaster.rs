//! Paymaster keys and the round-robin rule by which a pool hands them out.

use vstd::prelude::*;
use crate::account::{is_valid_account_id, AccountId};
use crate::error::Error;

verus! {

/// What a paymaster configuration stands for.
pub struct PaymasterView {
    pub nonce: u32,
    pub key_path: Seq<char>,
}

/// A key that pays for gas on a foreign chain: the nonce of its next
/// transaction and the path from which the signer derives it. The path never
/// reads as a valid account identifier.
#[derive(Debug)]
pub struct PaymasterConfiguration {
    nonce: u32,
    key_path: String,
}

impl View for PaymasterConfiguration {
    type V = PaymasterView;

    closed spec fn view(&self) -> PaymasterView {
        PaymasterView { nonce: self.nonce, key_path: self.key_path@ }
    }
}

impl PaymasterConfiguration {
    #[verifier::type_invariant]
    spec fn path_is_no_account(self) -> bool {
        !is_valid_account_id(self.key_path@)
    }

    /// A paymaster with the given nonce and key path, unless the path reads
    /// as a valid account identifier.
    pub fn new(nonce: u32, key_path: String) -> (made: Result<PaymasterConfiguration, Error>)
        ensures
            made is Ok <==> !is_valid_account_id(key_path@),
            made matches Ok(p) ==> p@ == (PaymasterView { nonce, key_path: key_path@ }),
            made matches Err(e) ==> e == Error::KeyPathIsAccountId,
    {
        if AccountId::is_valid(key_path.as_str()) {
            Err(Error::KeyPathIsAccountId)
        } else {
            Ok(PaymasterConfiguration { nonce, key_path })
        }
    }

    /// The nonce of the paymaster's next transaction.
    pub fn nonce(&self) -> (nonce: u32)
        ensures
            nonce == self@.nonce,
    {
        self.nonce
    }

    /// The key path, which is never a valid account identifier.
    pub fn key_path(&self) -> (path: &str)
        ensures
            path@ == self@.key_path,
            !is_valid_account_id(path@),
    {
        proof {
            use_type_invariant(self);
        }
        self.key_path.as_str()
    }

    /// Sets the nonce and leaves the key path as it is.
    pub fn set_nonce(&mut self, nonce: u32)
        ensures
            final(self)@ == (PaymasterView { nonce, key_path: old(self)@.key_path }),
    {
        proof {
            use_type_invariant(&*self);
        }
        self.nonce = nonce;
    }

    /// A copy of the paymaster.
    pub fn duplicate(&self) -> (copy: PaymasterConfiguration)
        ensures
            copy@ == self@,
    {
        proof {
            use_type_invariant(self);
        }
        PaymasterConfiguration { nonce: self.nonce, key_path: self.key_path.clone() }
    }
}

/// The views of the paymasters of a pool, in the pool's order.
pub open spec fn pool_view(pool: Seq<PaymasterConfiguration>) -> Seq<PaymasterView> {
    Seq::new(pool.len(), |i: int| pool[i]@)
}

/// The pool after the paymaster at `index` has been removed by putting the
/// last paymaster in its place.
pub open spec fn swap_removed<T>(pool: Seq<T>, index: int) -> Seq<T> {
    pool.update(index, pool.last()).drop_last()
}

/// The index that a cursor selects in a pool of `len` paymasters.
pub open spec fn selected_index(cursor: u32, len: int) -> int {
    cursor as int % len
}

/// The cursor after one selection: one more, and zero after the largest
/// value that the counter holds.
pub open spec fn advanced(cursor: u32) -> u32 {
    if cursor == u32::MAX {
        0
    } else {
        (cursor + 1) as u32
    }
}

/// The cursor after `count` selections.
pub open spec fn advanced_by(cursor: u32, count: nat) -> u32
    decreases count,
{
    if count == 0 {
        cursor
    } else {
        advanced(advanced_by(cursor, (count - 1) as nat))
    }
}

} // verus!
