//! What an operation is told of the call that asks for it.

use vstd::prelude::*;
use crate::account::AccountId;
use crate::member::Member;

verus! {

/// What a call context stands for.
pub struct ContextView {
    pub predecessor_account_id: Seq<char>,
    pub current_account_id: Seq<char>,
    pub owner: Option<Seq<char>>,
    pub attached_deposit: u128,
}

impl ContextView {
    /// Whether the caller is the current owner.
    pub open spec fn is_owner(self) -> bool {
        self.owner == Some(self.predecessor_account_id)
    }

    /// Whether the contract itself is the caller.
    pub open spec fn is_private(self) -> bool {
        self.predecessor_account_id == self.current_account_id
    }

    /// Whether the call carries the confirmation stake: exactly one
    /// indivisible unit of the native currency.
    pub open spec fn has_confirmation_stake(self) -> bool {
        self.attached_deposit == 1
    }
}

/// The facts of one call: who calls, which account the contract runs under,
/// who owns the contract now, and what was attached to the call.
#[derive(Debug)]
pub struct CallContext {
    pub predecessor_account_id: AccountId,
    pub current_account_id: AccountId,
    pub owner: Option<AccountId>,
    pub attached_deposit: u128,
}

impl View for CallContext {
    type V = ContextView;

    open spec fn view(&self) -> ContextView {
        ContextView {
            predecessor_account_id: self.predecessor_account_id@,
            current_account_id: self.current_account_id@,
            owner: match self.owner {
                Some(owner) => Some(owner@),
                None => None,
            },
            attached_deposit: self.attached_deposit,
        }
    }
}

impl CallContext {
    /// Whether the caller is the current owner.
    pub fn is_owner(&self) -> (owner: bool)
        ensures
            owner == self@.is_owner(),
    {
        match &self.owner {
            Some(owner) => owner.same(&self.predecessor_account_id),
            None => false,
        }
    }

    /// Whether the contract itself is the caller.
    pub fn is_private(&self) -> (private: bool)
        ensures
            private == self@.is_private(),
    {
        self.predecessor_account_id.same(&self.current_account_id)
    }

    /// Whether the call carries the confirmation stake.
    pub fn has_confirmation_stake(&self) -> (staked: bool)
        ensures
            staked == self@.has_confirmation_stake(),
    {
        self.attached_deposit == 1
    }
}

} // verus!
