//! The fee ledger: what has been collected in each asset and not yet
//! withdrawn.

use vstd::prelude::*;
use crate::asset::{AssetId, AssetIdView};
use crate::error::Error;
use crate::member::Member;

verus! {

/// The amount that a withdrawal asks for: the given one, or the whole
/// balance where none is given.
pub open spec fn requested_amount(
    fees: Map<AssetIdView, u128>,
    asset: AssetIdView,
    amount: Option<u128>,
) -> u128 {
    match amount {
        Some(a) => a,
        None => fees[asset],
    }
}

/// What a withdrawal does: the ledger after it and the amount to pay out, or
/// the reason for which it is refused. It is refused where the ledger has no
/// entry for the asset and where the entry holds less than is asked for.
pub open spec fn withdrawal(
    fees: Map<AssetIdView, u128>,
    asset: AssetIdView,
    amount: Option<u128>,
) -> Result<(Map<AssetIdView, u128>, u128), Error> {
    if !fees.contains_key(asset) {
        Err(Error::FeeEntryNotFound)
    } else if requested_amount(fees, asset, amount) > fees[asset] {
        Err(Error::InsufficientFees)
    } else {
        Ok(
            (
                fees.insert(asset, (fees[asset] - requested_amount(fees, asset, amount)) as u128),
                requested_amount(fees, asset, amount),
            ),
        )
    }
}

/// The balance of `asset` after `amount` more has been collected, where it
/// still fits 128 bits.
pub open spec fn credited(fees: Map<AssetIdView, u128>, asset: AssetIdView, amount: u128) -> int {
    if fees.contains_key(asset) {
        fees[asset] + amount
    } else {
        amount as int
    }
}

/// The fees collected in one asset.
#[derive(Debug)]
pub struct FeeEntry {
    pub asset: AssetId,
    pub amount: u128,
}

/// The fees collected in each asset. A balance is never negative: a
/// withdrawal of more than the balance is refused and changes nothing.
#[derive(Debug)]
pub struct FeeLedger {
    entries: Vec<FeeEntry>,
}

impl View for FeeLedger {
    type V = Map<AssetIdView, u128>;

    closed spec fn view(&self) -> Map<AssetIdView, u128> {
        Map::new(
            |asset: AssetIdView|
                exists|i: int| 0 <= i < self.entries.len() && self.entries[i].asset@ == asset,
            |asset: AssetIdView| self.entries[self.place_of(asset)].amount,
        )
    }
}

impl FeeLedger {
    #[verifier::type_invariant]
    spec fn distinct(self) -> bool {
        forall|i: int, j: int|
            0 <= i < j < self.entries.len() ==> self.entries[i].asset@ != self.entries[j].asset@
    }

    spec fn place_of(self, asset: AssetIdView) -> int {
        choose|i: int| 0 <= i < self.entries.len() && self.entries[i].asset@ == asset
    }

    proof fn lemma_place(self, i: int)
        requires
            self.distinct(),
            0 <= i < self.entries.len(),
        ensures
            self@.contains_key(self.entries[i].asset@),
            self.place_of(self.entries[i].asset@) == i,
            self@[self.entries[i].asset@] == self.entries[i].amount,
    {
        let j = self.place_of(self.entries[i].asset@);
        assert(0 <= j < self.entries.len() && self.entries[j].asset@ == self.entries[i].asset@);
    }

    /// The ledger with no entry.
    pub fn new() -> (ledger: FeeLedger)
        ensures
            ledger@ == Map::<AssetIdView, u128>::empty(),
    {
        let ledger = FeeLedger { entries: Vec::new() };
        assert(ledger@ =~= Map::<AssetIdView, u128>::empty());
        ledger
    }

    fn position(&self, asset: &AssetId) -> (place: Option<usize>)
        ensures
            place matches Some(i) ==> i < self.entries.len() && self.entries[i as int].asset@
                == asset@ && self@.contains_key(asset@) && self@[asset@]
                == self.entries[i as int].amount,
            place is None ==> !self@.contains_key(asset@),
    {
        proof {
            use_type_invariant(self);
        }
        let mut i: usize = 0;
        while i < self.entries.len()
            invariant
                i <= self.entries.len(),
                forall|k: int| 0 <= k < i ==> self.entries[k].asset@ != asset@,
            decreases self.entries.len() - i,
        {
            if self.entries[i].asset.same(asset) {
                proof {
                    use_type_invariant(self);
                    self.lemma_place(i as int);
                }
                return Some(i);
            }
            i += 1;
        }
        None
    }

    /// The balance recorded for `asset`.
    pub fn balance(&self, asset: &AssetId) -> (balance: Option<u128>)
        ensures
            balance is Some <==> self@.contains_key(asset@),
            balance matches Some(amount) ==> amount == self@[asset@],
    {
        match self.position(asset) {
            Some(i) => Some(self.entries[i].amount),
            None => None,
        }
    }

    /// Records that `amount` more has been collected in `asset`. A balance
    /// that would not fit 128 bits is refused.
    pub fn credit(&mut self, asset: AssetId, amount: u128) -> (done: Result<(), Error>)
        ensures
            done is Ok <==> credited(old(self)@, asset@, amount) <= u128::MAX,
            done is Ok ==> final(self)@ == old(self)@.insert(
                asset@,
                credited(old(self)@, asset@, amount) as u128,
            ),
            done matches Err(e) ==> e == Error::ArithmeticOverflow && final(self)@ == old(self)@,
    {
        proof {
            use_type_invariant(&*self);
        }
        let ghost before = *self;
        match self.position(&asset) {
            Some(i) => {
                let total = match self.entries[i].amount.checked_add(amount) {
                    Some(t) => t,
                    None => {
                        return Err(Error::ArithmeticOverflow);
                    },
                };
                let mut entries: Vec<FeeEntry> = Vec::new();
                core::mem::swap(&mut self.entries, &mut entries);
                entries[i].amount = total;
                core::mem::swap(&mut self.entries, &mut entries);
                proof {
                    self.lemma_after_update(before, i as int, total);
                }
                Ok(())
            },
            None => {
                let mut entries: Vec<FeeEntry> = Vec::new();
                core::mem::swap(&mut self.entries, &mut entries);
                entries.push(FeeEntry { asset, amount });
                core::mem::swap(&mut self.entries, &mut entries);
                proof {
                    let n = before.entries.len() as int;
                    self.lemma_place(n);
                    assert forall|a: AssetIdView| #[trigger] self@.contains_key(a) implies a == asset@
                        || before@.contains_key(a) by {
                        let k = self.place_of(a);
                        if k < n {
                            assert(before.entries[k].asset@ == a);
                        }
                    }
                    assert forall|a: AssetIdView| #[trigger] before@.contains_key(a) implies self@.contains_key(a)
                        && self@[a] == before@[a] by {
                        let k = before.place_of(a);
                        before.lemma_place(k);
                        self.lemma_place(k);
                    }
                    assert(self@ =~= before@.insert(asset@, amount));
                }
                Ok(())
            },
        }
    }

    proof fn lemma_after_update(self, before: FeeLedger, i: int, amount: u128)
        requires
            before.distinct(),
            self.distinct(),
            0 <= i < before.entries.len(),
            self.entries.len() == before.entries.len(),
            forall|k: int| 0 <= k < before.entries.len() ==> (#[trigger] self.entries[k]).asset@ == before.entries[k].asset@,
            forall|k: int| 0 <= k < before.entries.len() && k != i ==> (#[trigger] self.entries[k]).amount == before.entries[k].amount,
            self.entries[i].amount == amount,
        ensures
            self@ == before@.insert(before.entries[i].asset@, amount),
    {
        self.lemma_place(i);
        assert forall|a: AssetIdView| #[trigger] self@.contains_key(a) implies before@.contains_key(a) by {
            let k = self.place_of(a);
            assert(before.entries[k].asset@ == a);
        }
        assert forall|a: AssetIdView| #[trigger] before@.contains_key(a) implies self@.contains_key(a)
            && (a != before.entries[i].asset@ ==> self@[a] == before@[a]) by {
            let k = before.place_of(a);
            before.lemma_place(k);
            self.lemma_place(k);
        }
        assert(self@ =~= before@.insert(before.entries[i].asset@, amount));
    }

    /// Takes `amount`, or the whole balance where `amount` is `None`, out of
    /// what has been collected in `asset`, and returns what was taken. The
    /// subtraction is checked: a withdrawal that the balance does not cover
    /// is refused and changes nothing.
    pub fn withdraw(&mut self, asset: &AssetId, amount: Option<u128>) -> (taken: Result<u128, Error>)
        ensures
            match withdrawal(old(self)@, asset@, amount) {
                Ok((fees, paid)) => taken == Ok::<u128, Error>(paid) && final(self)@ == fees,
                Err(e) => taken == Err::<u128, Error>(e) && final(self)@ == old(self)@,
            },
    {
        proof {
            use_type_invariant(&*self);
        }
        let ghost before = *self;
        let i = match self.position(asset) {
            Some(i) => i,
            None => {
                return Err(Error::FeeEntryNotFound);
            },
        };
        let balance = self.entries[i].amount;
        let requested = match amount {
            Some(a) => a,
            None => balance,
        };
        let rest = match balance.checked_sub(requested) {
            Some(r) => r,
            None => {
                return Err(Error::InsufficientFees);
            },
        };
        let mut entries: Vec<FeeEntry> = Vec::new();
        core::mem::swap(&mut self.entries, &mut entries);
        entries[i].amount = rest;
        core::mem::swap(&mut self.entries, &mut entries);
        proof {
            self.lemma_after_update(before, i as int, rest);
        }
        Ok(requested)
    }

    /// The entries of the ledger, each asset once, in no particular order.
    pub fn entries(&self) -> (all: Vec<(&AssetId, u128)>)
        ensures
            forall|i: int|
                0 <= i < all.len() ==> self@.contains_key((#[trigger] all[i]).0@) && self@[all[i].0@]
                    == all[i].1,
            forall|asset: AssetIdView|
                self@.contains_key(asset) ==> exists|i: int|
                    0 <= i < all.len() && (#[trigger] all[i]).0@ == asset,
            forall|i: int, j: int| 0 <= i < j < all.len() ==> all[i].0@ != all[j].0@,
    {
        proof {
            use_type_invariant(self);
        }
        let mut all: Vec<(&AssetId, u128)> = Vec::new();
        let mut i: usize = 0;
        while i < self.entries.len()
            invariant
                i <= self.entries.len(),
                all.len() == i,
                forall|k: int| 0 <= k < i ==> *(#[trigger] all[k]).0 == self.entries[k].asset && all[k].1 == self.entries[k].amount,
            decreases self.entries.len() - i,
        {
            all.push((&self.entries[i].asset, self.entries[i].amount));
            i += 1;
        }
        proof {
            assert forall|k: int| 0 <= k < all.len() implies self@.contains_key((#[trigger] all[k]).0@)
                && self@[all[k].0@] == all[k].1 by {
                self.lemma_place(k);
            }
            assert forall|asset: AssetIdView| self@.contains_key(asset) implies exists|i: int|
                0 <= i < all.len() && (#[trigger] all[i]).0@ == asset by {
                let k = self.place_of(asset);
                assert(all[k].0@ == asset);
            }
        }
        all
    }
}

} // verus!
