//! The state of the gas station and the operations on it.
//!
//! The administrative operations are reserved to the owner, and the
//! continuation of the key refresh to the contract itself. What relaying
//! needs of the state (the next paymaster of a chain, filing a pending
//! sequence, recording a fee) is not reserved. An operation that is refused
//! leaves the state as it was.

use vstd::prelude::*;
use crate::account::{is_valid_account_id, AccountId};
use crate::address::ForeignAddress;
use crate::asset::{AssetId, AssetIdView};
use crate::chain::{gas_cost, ChainConfiguration, ChainView};
use crate::context::{CallContext, ContextView};
use crate::error::Error;
use crate::idmap::{ascending_ids, lists_keys, IdMap};
use crate::ledger::{credited, withdrawal, FeeLedger};
use crate::member::Member;
use crate::oracle::{AssetPriceView, PriceData};
use crate::paymaster::{advanced, selected_index, swap_removed, PaymasterConfiguration, PaymasterView};
use crate::sequence::{decimal_text, id_text, PendingTransactionSequence, SequenceView};
use crate::signer::AddressDerivation;
use crate::transaction::{decode_transaction_request, parsed_transaction, ValidTransactionRequest, ValidTransactionView};
use crate::whitelist::{views_of, Whitelist};

verus! {

/// The switches that govern relaying. The contract stores them and hands
/// them out; what they mean is decided where transactions are admitted.
#[derive(Clone, Copy, Debug, PartialEq, Eq, Structural)]
pub struct Flags {
    pub is_sender_whitelist_enabled: bool,
    pub is_receiver_whitelist_enabled: bool,
}

/// One line of the list of foreign chains.
#[derive(Debug)]
pub struct GetForeignChain {
    pub chain_id: u64,
    pub oracle_asset_id: String,
}

/// A withdrawal of fees that was granted: what to pay, in which asset, and
/// to whom.
#[derive(Debug)]
pub struct Withdrawal {
    pub asset_id: AssetId,
    pub receiver_id: AccountId,
    pub amount: u128,
}

/// What the state of the gas station stands for.
pub struct ContractView {
    pub expire_sequence_after_ns: u64,
    pub signer_contract_id: Seq<char>,
    pub signer_contract_public_key: Option<near_sdk::PublicKey>,
    pub oracle_local_asset_id: Seq<char>,
    pub flags: Flags,
    pub receiver_whitelist: Set<Seq<u8>>,
    pub sender_whitelist: Set<Seq<char>>,
    pub foreign_chains: Map<u64, ChainView>,
    pub pending_transaction_sequences: Map<u64, SequenceView>,
    pub collected_fees: Map<AssetIdView, u128>,
}

impl ContractView {
    /// The state with another expiry time.
    pub open spec fn with_expiry(self, expire_sequence_after_ns: u64) -> ContractView {
        ContractView { expire_sequence_after_ns, ..self }
    }

    /// The state with other switches.
    pub open spec fn with_flags(self, flags: Flags) -> ContractView {
        ContractView { flags, ..self }
    }

    /// The state with another whitelist of receivers.
    pub open spec fn with_receivers(self, receiver_whitelist: Set<Seq<u8>>) -> ContractView {
        ContractView { receiver_whitelist, ..self }
    }

    /// The state with another whitelist of senders.
    pub open spec fn with_senders(self, sender_whitelist: Set<Seq<char>>) -> ContractView {
        ContractView { sender_whitelist, ..self }
    }

    /// The state with another index of pending sequences.
    pub open spec fn with_sequences(
        self,
        pending_transaction_sequences: Map<u64, SequenceView>,
    ) -> ContractView {
        ContractView { pending_transaction_sequences, ..self }
    }

    /// The state with another fee ledger.
    pub open spec fn with_fees(self, collected_fees: Map<AssetIdView, u128>) -> ContractView {
        ContractView { collected_fees, ..self }
    }

    /// The state after the signer contract has been set to `account_id`: a
    /// new identity drops the cached key, the same identity changes nothing.
    pub open spec fn with_signer(self, account_id: Seq<char>) -> ContractView {
        if self.signer_contract_id == account_id {
            self
        } else {
            ContractView {
                signer_contract_id: account_id,
                signer_contract_public_key: None,
                ..self
            }
        }
    }

    /// The state after the signer's answer has arrived: a key is stored, a
    /// failure changes nothing.
    pub open spec fn with_signer_answer(
        self,
        answer: Result<near_sdk::PublicKey, near_sdk::PromiseError>,
    ) -> ContractView {
        match answer {
            Ok(key) => ContractView { signer_contract_public_key: Some(key), ..self },
            Err(_) => self,
        }
    }

    /// Whether a key is cached for the current signer.
    pub open spec fn is_fresh(self) -> bool {
        self.signer_contract_public_key is Some
    }

    /// The state after a foreign chain has been added under `chain_id`, in
    /// place of the one that was registered under that id, if any.
    pub open spec fn with_chain_added(
        self,
        chain_id: u64,
        oracle_asset_id: Seq<char>,
        transfer_gas: u128,
        fee_rate: (u128, u128),
    ) -> ContractView {
        ContractView {
            foreign_chains: self.foreign_chains.insert(
                chain_id,
                ChainView::fresh(oracle_asset_id, transfer_gas, fee_rate),
            ),
            ..self
        }
    }

    /// The state after the foreign chain `chain_id` has been removed.
    pub open spec fn with_chain_removed(self, chain_id: u64) -> ContractView {
        ContractView { foreign_chains: self.foreign_chains.remove(chain_id), ..self }
    }

    /// The state in which `chain` stands for the foreign chain `chain_id`.
    pub open spec fn with_chain(self, chain_id: u64, chain: ChainView) -> ContractView {
        ContractView { foreign_chains: self.foreign_chains.insert(chain_id, chain), ..self }
    }
}

/// Where a page begins among `count` entries.
pub open spec fn page_start(offset: Option<u32>, count: int) -> int {
    match offset {
        Some(o) => if o <= count {
            o as int
        } else {
            count
        },
        None => 0,
    }
}

/// How many of `count` entries a page holds.
pub open spec fn page_len(offset: Option<u32>, limit: Option<u32>, count: int) -> int {
    let rest = count - page_start(offset, count);
    match limit {
        Some(l) => if l <= rest {
            l as int
        } else {
            rest
        },
        None => rest,
    }
}

/// What a granted withdrawal stands for.
pub struct WithdrawalView {
    pub asset_id: AssetIdView,
    pub receiver_id: Seq<char>,
    pub amount: u128,
}

impl View for Withdrawal {
    type V = WithdrawalView;

    open spec fn view(&self) -> WithdrawalView {
        WithdrawalView {
            asset_id: self.asset_id@,
            receiver_id: self.receiver_id@,
            amount: self.amount,
        }
    }
}

/// Who receives a withdrawal: the receiver that was named, or the owner.
pub open spec fn withdrawal_receiver(context: ContextView, receiver_id: Option<Seq<char>>) -> Seq<char> {
    match receiver_id {
        Some(receiver) => receiver,
        None => context.owner->0,
    }
}

/// What an estimate of the gas cost returns for a valid request: the cost
/// on the request's chain, and a failure where that chain is not registered.
pub open spec fn estimate_for(
    state: ContractView,
    transaction: ValidTransactionView,
    prices: Seq<AssetPriceView>,
) -> Result<u128, Error> {
    if !state.foreign_chains.contains_key(transaction.chain_id) {
        Err(Error::ForeignChainNotFound)
    } else {
        gas_cost(
            state.foreign_chains[transaction.chain_id],
            state.oracle_local_asset_id,
            prices,
            transaction.gas,
            transaction.gas_price,
        )
    }
}

/// Whether a text and a sequence are what the index lists for `id`: the
/// decimal form of the id, and the sequence filed under it.
pub open spec fn is_entry_of(
    text: Seq<char>,
    sequence: SequenceView,
    id: u64,
    index: Map<u64, SequenceView>,
) -> bool {
    &&& index.contains_key(id)
    &&& text == decimal_text(id as nat)
    &&& sequence == index[id]
}

/// The state of the gas station. Each part keeps its own invariant; the
/// operations below are the ways in which a caller may change the state.
pub struct Contract {
    pub expire_sequence_after_ns: u64,
    pub signer_contract_id: AccountId,
    pub signer_contract_public_key: Option<near_sdk::PublicKey>,
    pub oracle_local_asset_id: String,
    pub flags: Flags,
    pub receiver_whitelist: Whitelist<ForeignAddress>,
    pub sender_whitelist: Whitelist<AccountId>,
    pub foreign_chains: IdMap<ChainConfiguration>,
    pub pending_transaction_sequences: IdMap<PendingTransactionSequence>,
    pub collected_fees: FeeLedger,
}

impl View for Contract {
    type V = ContractView;

    open spec fn view(&self) -> ContractView {
        ContractView {
            expire_sequence_after_ns: self.expire_sequence_after_ns,
            signer_contract_id: self.signer_contract_id@,
            signer_contract_public_key: self.signer_contract_public_key,
            oracle_local_asset_id: self.oracle_local_asset_id@,
            flags: self.flags,
            receiver_whitelist: self.receiver_whitelist@,
            sender_whitelist: self.sender_whitelist@,
            foreign_chains: self.foreign_chains@,
            pending_transaction_sequences: self.pending_transaction_sequences@,
            collected_fees: self.collected_fees@,
        }
    }
}

impl Contract {
    /// A gas station with no chain, no whitelist entry, no fee and no
    /// pending sequence, all switches off and no cached signer key.
    pub fn new(signer_contract_id: AccountId, oracle_local_asset_id: String, expire_sequence_after_ns: u64) -> (contract: Contract)
        ensures
            contract@ == (ContractView {
                expire_sequence_after_ns,
                signer_contract_id: signer_contract_id@,
                signer_contract_public_key: None,
                oracle_local_asset_id: oracle_local_asset_id@,
                flags: Flags {
                    is_sender_whitelist_enabled: false,
                    is_receiver_whitelist_enabled: false,
                },
                receiver_whitelist: Set::empty(),
                sender_whitelist: Set::empty(),
                foreign_chains: Map::empty(),
                pending_transaction_sequences: Map::empty(),
                collected_fees: Map::empty(),
            }),
    {
        Contract {
            expire_sequence_after_ns,
            signer_contract_id,
            signer_contract_public_key: None,
            oracle_local_asset_id,
            flags: Flags { is_sender_whitelist_enabled: false, is_receiver_whitelist_enabled: false },
            receiver_whitelist: Whitelist::new(),
            sender_whitelist: Whitelist::new(),
            foreign_chains: IdMap::new(),
            pending_transaction_sequences: IdMap::new(),
            collected_fees: FeeLedger::new(),
        }
    }

    /// The time after which a pending sequence expires, in nanoseconds.
    pub fn get_expire_sequence_after_ns(&self) -> (ns: u64)
        ensures
            ns == self@.expire_sequence_after_ns,
    {
        self.expire_sequence_after_ns
    }

    /// Sets the time after which a pending sequence expires.
    pub fn set_expire_sequence_after_ns(&mut self, context: &CallContext, expire_sequence_after_ns: u64) -> (done: Result<(), Error>)
        ensures
            done is Ok <==> context@.is_owner(),
            done is Ok ==> final(self)@ == old(self)@.with_expiry(expire_sequence_after_ns),
            done matches Err(e) ==> e == Error::PermissionDenied && final(self)@ == old(self)@,
    {
        if !context.is_owner() {
            return Err(Error::PermissionDenied);
        }
        self.expire_sequence_after_ns = expire_sequence_after_ns;
        Ok(())
    }

    /// The account of the signer contract.
    pub fn get_signer_contract_id(&self) -> (id: &AccountId)
        ensures
            id@ == self@.signer_contract_id,
    {
        &self.signer_contract_id
    }

    /// Sets the signer contract. Where the identity changes, the cached
    /// public key is dropped: the key must then be refreshed.
    pub fn set_signer_contract_id(&mut self, context: &CallContext, account_id: AccountId) -> (done: Result<(), Error>)
        ensures
            done is Ok <==> context@.is_owner(),
            done is Ok ==> final(self)@ == old(self)@.with_signer(account_id@),
            done matches Err(e) ==> e == Error::PermissionDenied && final(self)@ == old(self)@,
    {
        if !context.is_owner() {
            return Err(Error::PermissionDenied);
        }
        if !self.signer_contract_id.same(&account_id) {
            self.signer_contract_id = account_id;
            self.signer_contract_public_key = None;
        }
        Ok(())
    }

    /// Grants the refresh of the signer's public key: returns the account
    /// whose public key is to be asked for. The state changes only when the
    /// answer is handed to `refresh_signer_public_key_callback`.
    pub fn refresh_signer_public_key(&self, context: &CallContext) -> (signer: Result<&AccountId, Error>)
        ensures
            signer is Ok <==> context@.is_owner(),
            signer matches Ok(id) ==> id@ == self@.signer_contract_id,
            signer matches Err(e) ==> e == Error::PermissionDenied,
    {
        if !context.is_owner() {
            return Err(Error::PermissionDenied);
        }
        Ok(&self.signer_contract_id)
    }

    /// Takes the signer's answer. Only the contract itself may hand it in.
    /// A key is stored; a failed call is reported and changes nothing.
    pub fn refresh_signer_public_key_callback(
        &mut self,
        context: &CallContext,
        public_key: Result<near_sdk::PublicKey, near_sdk::PromiseError>,
    ) -> (done: Result<(), Error>)
        ensures
            done is Ok <==> context@.is_private() && public_key is Ok,
            done is Ok ==> final(self)@ == old(self)@.with_signer_answer(public_key),
            done matches Err(e) ==> final(self)@ == old(self)@ && e == (if context@.is_private() {
                Error::RemoteCallFailed
            } else {
                Error::PermissionDenied
            }),
    {
        if !context.is_private() {
            return Err(Error::PermissionDenied);
        }
        match public_key {
            Ok(key) => {
                self.signer_contract_public_key = Some(key);
                Ok(())
            },
            Err(_) => Err(Error::RemoteCallFailed),
        }
    }

    /// The switches.
    pub fn get_flags(&self) -> (flags: &Flags)
        ensures
            *flags == self@.flags,
    {
        &self.flags
    }

    /// Replaces the switches.
    pub fn set_flags(&mut self, context: &CallContext, flags: Flags) -> (done: Result<(), Error>)
        ensures
            done is Ok <==> context@.is_owner(),
            done is Ok ==> final(self)@ == old(self)@.with_flags(flags),
            done matches Err(e) ==> e == Error::PermissionDenied && final(self)@ == old(self)@,
    {
        if !context.is_owner() {
            return Err(Error::PermissionDenied);
        }
        self.flags = flags;
        Ok(())
    }

    /// The foreign addresses that may receive, each once.
    pub fn get_receiver_whitelist(&self) -> (all: Vec<&ForeignAddress>)
        ensures
            self@.receiver_whitelist.finite(),
            all@.len() == self@.receiver_whitelist.len(),
            forall|i: int| 0 <= i < all.len() ==> self@.receiver_whitelist.contains(#[trigger] all[i]@),
            forall|m: Seq<u8>|
                self@.receiver_whitelist.contains(m) ==> exists|i: int|
                    0 <= i < all.len() && #[trigger] all[i]@ == m,
            forall|i: int, j: int| 0 <= i < j < all.len() ==> all[i]@ != all[j]@,
    {
        self.receiver_whitelist.members()
    }

    /// Allows every one of `addresses` to receive.
    pub fn add_to_receiver_whitelist(&mut self, context: &CallContext, addresses: Vec<ForeignAddress>) -> (done: Result<(), Error>)
        ensures
            done is Ok <==> context@.is_owner(),
            done is Ok ==> final(self)@ == old(self)@.with_receivers(
                old(self)@.receiver_whitelist.union(views_of(addresses@)),
            ),
            done matches Err(e) ==> e == Error::PermissionDenied && final(self)@ == old(self)@,
    {
        if !context.is_owner() {
            return Err(Error::PermissionDenied);
        }
        self.receiver_whitelist.insert_all(addresses);
        Ok(())
    }

    /// Allows none of `addresses` to receive any longer.
    pub fn remove_from_receiver_whitelist(&mut self, context: &CallContext, addresses: Vec<ForeignAddress>) -> (done: Result<(), Error>)
        ensures
            done is Ok <==> context@.is_owner(),
            done is Ok ==> final(self)@ == old(self)@.with_receivers(
                old(self)@.receiver_whitelist.difference(views_of(addresses@)),
            ),
            done matches Err(e) ==> e == Error::PermissionDenied && final(self)@ == old(self)@,
    {
        if !context.is_owner() {
            return Err(Error::PermissionDenied);
        }
        self.receiver_whitelist.remove_all(&addresses);
        Ok(())
    }

    /// Empties the whitelist of receivers.
    pub fn clear_receiver_whitelist(&mut self, context: &CallContext) -> (done: Result<(), Error>)
        ensures
            done is Ok <==> context@.is_owner(),
            done is Ok ==> final(self)@ == old(self)@.with_receivers(Set::empty()),
            done matches Err(e) ==> e == Error::PermissionDenied && final(self)@ == old(self)@,
    {
        if !context.is_owner() {
            return Err(Error::PermissionDenied);
        }
        self.receiver_whitelist.clear();
        Ok(())
    }

    /// The accounts that may send, each once.
    pub fn get_sender_whitelist(&self) -> (all: Vec<&AccountId>)
        ensures
            self@.sender_whitelist.finite(),
            all@.len() == self@.sender_whitelist.len(),
            forall|i: int| 0 <= i < all.len() ==> self@.sender_whitelist.contains(#[trigger] all[i]@),
            forall|m: Seq<char>|
                self@.sender_whitelist.contains(m) ==> exists|i: int|
                    0 <= i < all.len() && #[trigger] all[i]@ == m,
            forall|i: int, j: int| 0 <= i < j < all.len() ==> all[i]@ != all[j]@,
    {
        self.sender_whitelist.members()
    }

    /// Allows every one of `addresses` to send.
    pub fn add_to_sender_whitelist(&mut self, context: &CallContext, addresses: Vec<AccountId>) -> (done: Result<(), Error>)
        ensures
            done is Ok <==> context@.is_owner(),
            done is Ok ==> final(self)@ == old(self)@.with_senders(
                old(self)@.sender_whitelist.union(views_of(addresses@)),
            ),
            done matches Err(e) ==> e == Error::PermissionDenied && final(self)@ == old(self)@,
    {
        if !context.is_owner() {
            return Err(Error::PermissionDenied);
        }
        self.sender_whitelist.insert_all(addresses);
        Ok(())
    }

    /// Allows none of `addresses` to send any longer.
    pub fn remove_from_sender_whitelist(&mut self, context: &CallContext, addresses: Vec<AccountId>) -> (done: Result<(), Error>)
        ensures
            done is Ok <==> context@.is_owner(),
            done is Ok ==> final(self)@ == old(self)@.with_senders(
                old(self)@.sender_whitelist.difference(views_of(addresses@)),
            ),
            done matches Err(e) ==> e == Error::PermissionDenied && final(self)@ == old(self)@,
    {
        if !context.is_owner() {
            return Err(Error::PermissionDenied);
        }
        self.sender_whitelist.remove_all(&addresses);
        Ok(())
    }

    /// Empties the whitelist of senders.
    pub fn clear_sender_whitelist(&mut self, context: &CallContext) -> (done: Result<(), Error>)
        ensures
            done is Ok <==> context@.is_owner(),
            done is Ok ==> final(self)@ == old(self)@.with_senders(Set::empty()),
            done matches Err(e) ==> e == Error::PermissionDenied && final(self)@ == old(self)@,
    {
        if !context.is_owner() {
            return Err(Error::PermissionDenied);
        }
        self.sender_whitelist.clear();
        Ok(())
    }

    /// Registers a foreign chain with no paymaster and cursor zero. A chain
    /// that is registered under the same id is replaced, its paymasters
    /// included. A fee rate with denominator zero is refused.
    pub fn add_foreign_chain(
        &mut self,
        context: &CallContext,
        chain_id: u64,
        oracle_asset_id: String,
        transfer_gas: u128,
        fee_rate: (u128, u128),
    ) -> (done: Result<(), Error>)
        ensures
            done is Ok <==> context@.is_owner() && fee_rate.1 != 0,
            done is Ok ==> final(self)@ == old(self)@.with_chain_added(
                chain_id,
                oracle_asset_id@,
                transfer_gas,
                fee_rate,
            ),
            done matches Err(e) ==> final(self)@ == old(self)@ && e == (if !context@.is_owner() {
                Error::PermissionDenied
            } else {
                Error::ZeroFeeDenominator
            }),
    {
        if !context.is_owner() {
            return Err(Error::PermissionDenied);
        }
        let chain = match ChainConfiguration::new(oracle_asset_id, transfer_gas, fee_rate) {
            Ok(chain) => chain,
            Err(e) => {
                return Err(e);
            },
        };
        self.foreign_chains.insert(chain_id, chain);
        Ok(())
    }

    /// Sets the oracle asset id of a foreign chain.
    pub fn set_foreign_chain_oracle_asset_id(
        &mut self,
        context: &CallContext,
        chain_id: u64,
        oracle_asset_id: String,
    ) -> (done: Result<(), Error>)
        ensures
            done is Ok <==> context@.is_owner() && old(self)@.foreign_chains.contains_key(chain_id),
            done is Ok ==> final(self)@ == old(self)@.with_chain(
                chain_id,
                ChainView { oracle_asset_id: oracle_asset_id@, ..old(self)@.foreign_chains[chain_id] },
            ),
            done matches Err(e) ==> final(self)@ == old(self)@ && e == (if !context@.is_owner() {
                Error::PermissionDenied
            } else {
                Error::ForeignChainNotFound
            }),
    {
        if !context.is_owner() {
            return Err(Error::PermissionDenied);
        }
        match self.foreign_chains.remove(chain_id) {
            Some(mut chain) => {
                chain.set_oracle_asset_id(oracle_asset_id);
                self.foreign_chains.insert(chain_id, chain);
                assert(self@.foreign_chains =~= old(self)@.foreign_chains.insert(chain_id, chain@));
                Ok(())
            },
            None => {
                assert(self@.foreign_chains =~= old(self)@.foreign_chains);
                Err(Error::ForeignChainNotFound)
            },
        }
    }

    /// Sets the transfer gas of a foreign chain.
    pub fn set_foreign_chain_transfer_gas(
        &mut self,
        context: &CallContext,
        chain_id: u64,
        transfer_gas: u128,
    ) -> (done: Result<(), Error>)
        ensures
            done is Ok <==> context@.is_owner() && old(self)@.foreign_chains.contains_key(chain_id),
            done is Ok ==> final(self)@ == old(self)@.with_chain(
                chain_id,
                ChainView { transfer_gas: transfer_gas as int, ..old(self)@.foreign_chains[chain_id] },
            ),
            done matches Err(e) ==> final(self)@ == old(self)@ && e == (if !context@.is_owner() {
                Error::PermissionDenied
            } else {
                Error::ForeignChainNotFound
            }),
    {
        if !context.is_owner() {
            return Err(Error::PermissionDenied);
        }
        match self.foreign_chains.remove(chain_id) {
            Some(mut chain) => {
                chain.set_transfer_gas(transfer_gas);
                self.foreign_chains.insert(chain_id, chain);
                assert(self@.foreign_chains =~= old(self)@.foreign_chains.insert(chain_id, chain@));
                Ok(())
            },
            None => {
                assert(self@.foreign_chains =~= old(self)@.foreign_chains);
                Err(Error::ForeignChainNotFound)
            },
        }
    }

    /// Removes a foreign chain and empties its paymaster pool. A chain id
    /// that is not registered is no error: nothing changes.
    pub fn remove_foreign_chain(&mut self, context: &CallContext, chain_id: u64) -> (done: Result<(), Error>)
        ensures
            done is Ok <==> context@.is_owner(),
            done is Ok ==> final(self)@ == old(self)@.with_chain_removed(chain_id),
            done matches Err(e) ==> e == Error::PermissionDenied && final(self)@ == old(self)@,
    {
        if !context.is_owner() {
            return Err(Error::PermissionDenied);
        }
        match self.foreign_chains.remove(chain_id) {
            Some(mut chain) => {
                chain.clear_paymasters();
            },
            None => {},
        }
        Ok(())
    }

    /// The foreign chains in ascending order of chain id, each with its
    /// oracle asset id.
    pub fn get_foreign_chains(&self) -> (chains: Vec<GetForeignChain>)
        ensures
            lists_keys(ascending_ids(self@.foreign_chains), self@.foreign_chains),
            chains@.len() == ascending_ids(self@.foreign_chains).len(),
            forall|i: int|
                0 <= i < chains.len() ==> {
                    &&& (#[trigger] chains[i]).chain_id == ascending_ids(self@.foreign_chains)[i]
                    &&& self@.foreign_chains.contains_key(chains[i].chain_id)
                    &&& chains[i].oracle_asset_id@
                        == self@.foreign_chains[chains[i].chain_id].oracle_asset_id
                },
    {
        let count = self.foreign_chains.len();
        let mut chains: Vec<GetForeignChain> = Vec::new();
        let mut rank: usize = 0;
        while rank < count
            invariant
                rank <= count,
                count == ascending_ids(self@.foreign_chains).len(),
                chains.len() == rank,
                forall|i: int|
                    0 <= i < rank ==> {
                        &&& (#[trigger] chains[i]).chain_id == ascending_ids(self@.foreign_chains)[i]
                        &&& self@.foreign_chains.contains_key(chains[i].chain_id)
                        &&& chains[i].oracle_asset_id@
                            == self@.foreign_chains[chains[i].chain_id].oracle_asset_id
                    },
            decreases count - rank,
        {
            match self.foreign_chains.nth(rank) {
                Some((chain_id, chain)) => {
                    chains.push(
                        GetForeignChain {
                            chain_id,
                            oracle_asset_id: chain.oracle_asset_id().to_owned(),
                        },
                    );
                },
                None => {},
            }
            rank += 1;
        }
        chains
    }

    /// Appends a paymaster to the pool of a foreign chain and returns its
    /// index. The key path must not read as a valid account identifier.
    pub fn add_paymaster(
        &mut self,
        context: &CallContext,
        chain_id: u64,
        nonce: u32,
        key_path: String,
    ) -> (added: Result<u32, Error>)
        ensures
            added is Ok <==> {
                &&& context@.is_owner()
                &&& !is_valid_account_id(key_path@)
                &&& old(self)@.foreign_chains.contains_key(chain_id)
                &&& old(self)@.foreign_chains[chain_id].paymasters.len() < u32::MAX
            },
            added matches Ok(index) ==> index == old(self)@.foreign_chains[chain_id].paymasters.len()
                && final(self)@ == old(self)@.with_chain(
                chain_id,
                ChainView {
                    paymasters: old(self)@.foreign_chains[chain_id].paymasters.push(
                        PaymasterView { nonce, key_path: key_path@ },
                    ),
                    ..old(self)@.foreign_chains[chain_id]
                },
            ),
            added matches Err(e) ==> final(self)@ == old(self)@ && e == (if !context@.is_owner() {
                Error::PermissionDenied
            } else if is_valid_account_id(key_path@) {
                Error::KeyPathIsAccountId
            } else if !old(self)@.foreign_chains.contains_key(chain_id) {
                Error::ForeignChainNotFound
            } else {
                Error::ArithmeticOverflow
            }),
    {
        if !context.is_owner() {
            return Err(Error::PermissionDenied);
        }
        if AccountId::is_valid(key_path.as_str()) {
            return Err(Error::KeyPathIsAccountId);
        }
        match self.foreign_chains.remove(chain_id) {
            Some(mut chain) => {
                let added = chain.add_paymaster(nonce, key_path);
                self.foreign_chains.insert(chain_id, chain);
                assert(self@.foreign_chains =~= old(self)@.foreign_chains.insert(chain_id, chain@));
                proof {
                    if added is Err {
                        assert(self@.foreign_chains =~= old(self)@.foreign_chains);
                    }
                }
                added
            },
            None => {
                assert(self@.foreign_chains =~= old(self)@.foreign_chains);
                Err(Error::ForeignChainNotFound)
            },
        }
    }

    /// Sets the nonce of the paymaster at `index` in the pool of a foreign
    /// chain.
    pub fn set_paymaster_nonce(
        &mut self,
        context: &CallContext,
        chain_id: u64,
        index: u32,
        nonce: u32,
    ) -> (done: Result<(), Error>)
        ensures
            done is Ok <==> {
                &&& context@.is_owner()
                &&& old(self)@.foreign_chains.contains_key(chain_id)
                &&& index < old(self)@.foreign_chains[chain_id].paymasters.len()
            },
            done is Ok ==> final(self)@ == old(self)@.with_chain(
                chain_id,
                ChainView {
                    paymasters: old(self)@.foreign_chains[chain_id].paymasters.update(
                        index as int,
                        PaymasterView {
                            nonce,
                            key_path: old(self)@.foreign_chains[chain_id].paymasters[index as int].key_path,
                        },
                    ),
                    ..old(self)@.foreign_chains[chain_id]
                },
            ),
            done matches Err(e) ==> final(self)@ == old(self)@ && e == (if !context@.is_owner() {
                Error::PermissionDenied
            } else if !old(self)@.foreign_chains.contains_key(chain_id) {
                Error::ForeignChainNotFound
            } else {
                Error::PaymasterNotFound
            }),
    {
        if !context.is_owner() {
            return Err(Error::PermissionDenied);
        }
        match self.foreign_chains.remove(chain_id) {
            Some(mut chain) => {
                let done = chain.set_paymaster_nonce(index, nonce);
                self.foreign_chains.insert(chain_id, chain);
                assert(self@.foreign_chains =~= old(self)@.foreign_chains.insert(chain_id, chain@));
                proof {
                    if done is Err {
                        assert(self@.foreign_chains =~= old(self)@.foreign_chains);
                    }
                }
                done
            },
            None => {
                assert(self@.foreign_chains =~= old(self)@.foreign_chains);
                Err(Error::ForeignChainNotFound)
            },
        }
    }

    /// Removes the paymaster at `index` from the pool of a foreign chain by
    /// putting the pool's last paymaster in its place. The indices of the
    /// others stay; the cursor stays too.
    pub fn remove_paymaster(&mut self, context: &CallContext, chain_id: u64, index: u32) -> (done: Result<(), Error>)
        ensures
            done is Ok <==> {
                &&& context@.is_owner()
                &&& old(self)@.foreign_chains.contains_key(chain_id)
                &&& index < old(self)@.foreign_chains[chain_id].paymasters.len()
            },
            done is Ok ==> final(self)@ == old(self)@.with_chain(
                chain_id,
                ChainView {
                    paymasters: swap_removed(
                        old(self)@.foreign_chains[chain_id].paymasters,
                        index as int,
                    ),
                    ..old(self)@.foreign_chains[chain_id]
                },
            ),
            done matches Err(e) ==> final(self)@ == old(self)@ && e == (if !context@.is_owner() {
                Error::PermissionDenied
            } else if !old(self)@.foreign_chains.contains_key(chain_id) {
                Error::ForeignChainNotFound
            } else {
                Error::PaymasterNotFound
            }),
    {
        if !context.is_owner() {
            return Err(Error::PermissionDenied);
        }
        match self.foreign_chains.remove(chain_id) {
            Some(mut chain) => {
                let done = chain.remove_paymaster(index);
                self.foreign_chains.insert(chain_id, chain);
                assert(self@.foreign_chains =~= old(self)@.foreign_chains.insert(chain_id, chain@));
                proof {
                    if done is Err {
                        assert(self@.foreign_chains =~= old(self)@.foreign_chains);
                    }
                }
                done
            },
            None => {
                assert(self@.foreign_chains =~= old(self)@.foreign_chains);
                Err(Error::ForeignChainNotFound)
            },
        }
    }

    /// The paymasters of a foreign chain in index order. No key path among
    /// them reads as a valid account identifier.
    pub fn get_paymasters(&self, chain_id: u64) -> (listed: Result<Vec<&PaymasterConfiguration>, Error>)
        ensures
            listed is Ok <==> self@.foreign_chains.contains_key(chain_id),
            listed matches Ok(pool) ==> {
                &&& pool@.len() == self@.foreign_chains[chain_id].paymasters.len()
                &&& self@.foreign_chains[chain_id].well_formed()
                &&& forall|i: int|
                    0 <= i < pool.len() ==> (#[trigger] pool[i])@
                        == self@.foreign_chains[chain_id].paymasters[i]
            },
            listed matches Err(e) ==> e == Error::ForeignChainNotFound,
    {
        match self.foreign_chains.get(chain_id) {
            Some(chain) => Ok(chain.paymasters()),
            None => Err(Error::ForeignChainNotFound),
        }
    }

    /// Selects the next paymaster of a foreign chain round-robin: the one at
    /// the cursor taken modulo the pool's length, whatever the cursor has
    /// grown to. The cursor then advances by one. An empty pool selects
    /// nothing and changes nothing.
    pub fn next_paymaster(&mut self, chain_id: u64) -> (selected: Result<Option<PaymasterConfiguration>, Error>)
        ensures
            selected is Ok <==> old(self)@.foreign_chains.contains_key(chain_id),
            selected matches Ok(choice) ==> {
                let chain = old(self)@.foreign_chains[chain_id];
                &&& choice is Some <==> chain.paymasters.len() > 0
                &&& choice matches Some(paymaster) ==> paymaster@ == chain.paymasters[selected_index(
                    chain.next_paymaster,
                    chain.paymasters.len() as int,
                )] && final(self)@ == old(self)@.with_chain(
                    chain_id,
                    ChainView { next_paymaster: advanced(chain.next_paymaster), ..chain },
                )
                &&& choice is None ==> final(self)@ == old(self)@
            },
            selected matches Err(e) ==> e == Error::ForeignChainNotFound && final(self)@ == old(self)@,
    {
        match self.foreign_chains.remove(chain_id) {
            Some(mut chain) => {
                let choice = chain.next_paymaster();
                self.foreign_chains.insert(chain_id, chain);
                assert(self@.foreign_chains =~= old(self)@.foreign_chains.insert(chain_id, chain@));
                proof {
                    if choice is None {
                        assert(self@.foreign_chains =~= old(self)@.foreign_chains);
                    }
                }
                Ok(choice)
            },
            None => {
                assert(self@.foreign_chains =~= old(self)@.foreign_chains);
                Err(Error::ForeignChainNotFound)
            },
        }
    }

    /// Files a pending sequence under `id`, in place of the one that was
    /// filed under that id, if any.
    pub fn insert_transaction(&mut self, id: u64, sequence: PendingTransactionSequence)
        ensures
            final(self)@ == old(self)@.with_sequences(
                old(self)@.pending_transaction_sequences.insert(id, sequence@),
            ),
    {
        self.pending_transaction_sequences.insert(id, sequence);
    }

    /// Takes the pending sequence `id` off the index and returns it.
    pub fn remove_transaction(&mut self, id: u64) -> (taken: Option<PendingTransactionSequence>)
        ensures
            taken is Some <==> old(self)@.pending_transaction_sequences.contains_key(id),
            taken matches Some(sequence) ==> sequence@ == old(self)@.pending_transaction_sequences[id],
            final(self)@ == old(self)@.with_sequences(
                old(self)@.pending_transaction_sequences.remove(id),
            ),
    {
        self.pending_transaction_sequences.remove(id)
    }

    /// The pending sequences in ascending order of id, each with the
    /// textual form of its id: those from `offset` on (from the first where
    /// none is given), and at most `limit` of them (all where none is
    /// given).
    pub fn list_transactions(&self, offset: Option<u32>, limit: Option<u32>) -> (page: Vec<(String, &PendingTransactionSequence)>)
        ensures
            lists_keys(
                ascending_ids(self@.pending_transaction_sequences),
                self@.pending_transaction_sequences,
            ),
            page@.len() == page_len(
                offset,
                limit,
                ascending_ids(self@.pending_transaction_sequences).len() as int,
            ),
            forall|i: int|
                0 <= i < page.len() ==> is_entry_of(
                    (#[trigger] page[i]).0@,
                    page[i].1@,
                    ascending_ids(self@.pending_transaction_sequences)[page_start(
                        offset,
                        ascending_ids(self@.pending_transaction_sequences).len() as int,
                    ) + i],
                    self@.pending_transaction_sequences,
                ),
    {
        let count = self.pending_transaction_sequences.len();
        let start: usize = match offset {
            Some(o) => if o as usize <= count {
                o as usize
            } else {
                count
            },
            None => 0,
        };
        let length: usize = match limit {
            Some(l) => if l as usize <= count - start {
                l as usize
            } else {
                count - start
            },
            None => count - start,
        };
        let mut page: Vec<(String, &PendingTransactionSequence)> = Vec::new();
        let mut i: usize = 0;
        while i < length
            invariant
                i <= length,
                start + length <= count,
                count == ascending_ids(self@.pending_transaction_sequences).len(),
                start == page_start(offset, count as int),
                page.len() == i,
                forall|k: int|
                    0 <= k < i ==> is_entry_of(
                        (#[trigger] page[k]).0@,
                        page[k].1@,
                        ascending_ids(self@.pending_transaction_sequences)[start + k],
                        self@.pending_transaction_sequences,
                    ),
            decreases length - i,
        {
            match self.pending_transaction_sequences.nth(start + i) {
                Some((id, sequence)) => {
                    page.push((id_text(id), sequence));
                },
                None => {},
            }
            i += 1;
        }
        page
    }

    /// The pending sequence filed under `id`, or `None` where there is none:
    /// an id that is not there is no error.
    pub fn get_transaction(&self, id: u64) -> (found: Option<&PendingTransactionSequence>)
        ensures
            found is Some <==> self@.pending_transaction_sequences.contains_key(id),
            found matches Some(sequence) ==> sequence@ == self@.pending_transaction_sequences[id],
    {
        self.pending_transaction_sequences.get(id)
    }

    /// Records that `amount` more has been collected in `asset_id`.
    pub fn collect_fee(&mut self, asset_id: AssetId, amount: u128) -> (done: Result<(), Error>)
        ensures
            done is Ok <==> credited(old(self)@.collected_fees, asset_id@, amount) <= u128::MAX,
            done is Ok ==> final(self)@ == old(self)@.with_fees(
                old(self)@.collected_fees.insert(
                    asset_id@,
                    credited(old(self)@.collected_fees, asset_id@, amount) as u128,
                ),
            ),
            done matches Err(e) ==> e == Error::ArithmeticOverflow && final(self)@ == old(self)@,
    {
        self.collected_fees.credit(asset_id, amount)
    }

    /// Takes fees out of the ledger and says what is to be paid to whom. The
    /// call must carry the confirmation stake and come from the owner. Where
    /// no amount is given the whole balance is taken; where no receiver is
    /// given the owner receives. A withdrawal of more than the balance is
    /// refused and changes nothing.
    pub fn withdraw_collected_fees(
        &mut self,
        context: &CallContext,
        asset_id: AssetId,
        amount: Option<u128>,
        receiver_id: Option<AccountId>,
    ) -> (granted: Result<Withdrawal, Error>)
        ensures
            !context@.has_confirmation_stake() ==> (granted matches Err(e) && e
                == Error::ConfirmationStakeRequired && final(self)@ == old(self)@),
            context@.has_confirmation_stake() && !context@.is_owner() ==> (granted matches Err(e)
                && e == Error::PermissionDenied && final(self)@ == old(self)@),
            context@.has_confirmation_stake() && context@.is_owner() ==> match withdrawal(
                old(self)@.collected_fees,
                asset_id@,
                amount,
            ) {
                Ok((fees, paid)) => granted matches Ok(w) && w@ == (WithdrawalView {
                    asset_id: asset_id@,
                    receiver_id: withdrawal_receiver(
                        context@,
                        match receiver_id {
                            Some(receiver) => Some(receiver@),
                            None => None,
                        },
                    ),
                    amount: paid,
                }) && final(self)@ == old(self)@.with_fees(fees),
                Err(reason) => granted matches Err(e) && e == reason && final(self)@ == old(self)@,
            },
    {
        if !context.has_confirmation_stake() {
            return Err(Error::ConfirmationStakeRequired);
        }
        let owner = match &context.owner {
            Some(owner) => if owner.same(&context.predecessor_account_id) {
                owner
            } else {
                return Err(Error::PermissionDenied);
            },
            None => {
                return Err(Error::PermissionDenied);
            },
        };
        let paid = match self.collected_fees.withdraw(&asset_id, amount) {
            Ok(paid) => paid,
            Err(e) => {
                return Err(e);
            },
        };
        let receiver_id = match receiver_id {
            Some(receiver) => receiver,
            None => owner.duplicate(),
        };
        Ok(Withdrawal { asset_id, receiver_id, amount: paid })
    }

    /// The fees collected and not withdrawn, each asset once.
    pub fn get_collected_fees(&self) -> (all: Vec<(&AssetId, u128)>)
        ensures
            forall|i: int|
                0 <= i < all.len() ==> self@.collected_fees.contains_key((#[trigger] all[i]).0@)
                    && self@.collected_fees[all[i].0@] == all[i].1,
            forall|asset: AssetIdView|
                self@.collected_fees.contains_key(asset) ==> exists|i: int|
                    0 <= i < all.len() && (#[trigger] all[i]).0@ == asset,
            forall|i: int, j: int| 0 <= i < j < all.len() ==> all[i].0@ != all[j].0@,
    {
        self.collected_fees.entries()
    }

    /// What the key derivation needs to compute the foreign address of
    /// `account_id`. It is handed out only while a public key is cached for
    /// the current signer; no address is made up without one.
    pub fn get_foreign_address_for<'a>(&'a self, context: &'a CallContext, account_id: &'a AccountId) -> (request: Result<AddressDerivation<'a>, Error>)
        ensures
            request is Ok <==> self@.is_fresh(),
            request matches Ok(derivation) ==> {
                &&& self@.signer_contract_public_key == Some(*derivation.public_key)
                &&& derivation.contract_id@ == context@.current_account_id
                &&& derivation.account_id@ == account_id@
            },
            request matches Err(e) ==> e == Error::SignerKeyUnavailable,
    {
        match &self.signer_contract_public_key {
            Some(public_key) => Ok(
                AddressDerivation {
                    public_key,
                    contract_id: &context.current_account_id,
                    account_id,
                },
            ),
            None => Err(Error::SignerKeyUnavailable),
        }
    }

    /// What a valid request costs in the local asset: the gas limit and the
    /// chain's transfer gas, at the request's gas price, converted at the
    /// oracle's prices and the chain's fee rate.
    pub fn estimate_gas_cost_of(&self, transaction: &ValidTransactionRequest, price_data: &PriceData) -> (cost: Result<u128, Error>)
        ensures
            cost == estimate_for(self@, transaction@, price_data@),
    {
        match self.foreign_chains.get(transaction.chain_id) {
            Some(chain) => chain.estimate(
                self.oracle_local_asset_id.as_str(),
                price_data,
                transaction.gas,
                transaction.gas_price,
            ),
            None => Err(Error::ForeignChainNotFound),
        }
    }

    /// What the request that `transaction_rlp_hex` stands for costs in the
    /// local asset. A text that stands for no valid request is refused.
    pub fn estimate_gas_cost(&self, transaction_rlp_hex: &str, price_data: &PriceData) -> (cost: Result<u128, Error>)
        ensures
            cost == (match parsed_transaction(transaction_rlp_hex@) {
                Ok(transaction) => estimate_for(self@, transaction, price_data@),
                Err(fault) => Err(Error::InvalidTransaction(fault)),
            }),
    {
        match decode_transaction_request(transaction_rlp_hex) {
            Ok(transaction) => self.estimate_gas_cost_of(&transaction, price_data),
            Err(e) => Err(e),
        }
    }
}

} // verus!
