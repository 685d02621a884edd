//! The assets in which fees are collected.

use vstd::prelude::*;
use crate::account::AccountId;
use crate::member::Member;

verus! {

/// What an asset identifier stands for.
pub enum AssetIdView {
    Native,
    Nep141(Seq<char>),
}

/// An asset of the home chain: its native currency, or the fungible token
/// that the named contract keeps.
#[derive(Debug)]
pub enum AssetId {
    Native,
    Nep141(AccountId),
}

impl View for AssetId {
    type V = AssetIdView;

    open spec fn view(&self) -> AssetIdView {
        match self {
            AssetId::Native => AssetIdView::Native,
            AssetId::Nep141(contract) => AssetIdView::Nep141(contract@),
        }
    }
}

impl Member for AssetId {
    fn same(&self, other: &AssetId) -> (equal: bool) {
        match (self, other) {
            (AssetId::Native, AssetId::Native) => true,
            (AssetId::Nep141(a), AssetId::Nep141(b)) => a.same(b),
            _ => false,
        }
    }
}

impl AssetId {
    /// A copy of the identifier.
    pub fn duplicate(&self) -> (copy: AssetId)
        ensures
            copy@ == self@,
    {
        match self {
            AssetId::Native => AssetId::Native,
            AssetId::Nep141(contract) => AssetId::Nep141(contract.duplicate()),
        }
    }
}

} // verus!
