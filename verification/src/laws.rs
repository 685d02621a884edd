//! Laws of the gas station: what holds of its operations taken together.
//!
//! Each law is stated over the specification functions by which the
//! operations' own contracts say what they return and change.

use vstd::prelude::*;
use crate::account::is_valid_account_id;
use crate::chain::ChainView;
use crate::contract::{page_len, page_start, ContractView, Flags};
use crate::error::Error;
use crate::idmap::{ascending_ids, lists_keys};
use crate::asset::AssetIdView;
use crate::ledger::withdrawal;
use crate::paymaster::{advanced, advanced_by, selected_index, swap_removed};
use crate::sequence::SequenceView;

verus! {

/// However far the cursor has run, and whatever it was before, it selects
/// an index of the pool, as long as the pool is not empty.
pub proof fn law_cursor_selects_within_pool(cursor: u32, selections: nat, len: int)
    requires
        len > 0,
    ensures
        0 <= selected_index(advanced_by(cursor, selections), len) < len,
{
}

/// The cursor never leaves the range of its counter: after the largest
/// value it starts again at zero.
pub proof fn law_cursor_wraps(cursor: u32, selections: nat)
    ensures
        advanced_by(cursor, selections) as int == (cursor + selections) % 0x1_0000_0000,
    decreases selections,
{
    if selections > 0 {
        law_cursor_wraps(cursor, (selections - 1) as nat);
    }
}

/// Short of the counter's wrap, each selection takes the paymaster after the
/// one that was taken before, and the first after the last.
pub proof fn law_selection_is_round_robin(cursor: u32, len: int)
    requires
        len > 0,
        cursor < u32::MAX,
    ensures
        selected_index(advanced(cursor), len) == (selected_index(cursor, len) + 1) % len,
{
    let c = cursor as int;
    assert((c + 1) % len == ((c % len) + 1) % len) by (nonlinear_arith)
        requires len > 0, c >= 0;
}

/// Removing the paymaster at `index` by swap-removal takes exactly that one
/// out of the pool: every other paymaster is still there, as often as
/// before, though the last one has moved.
pub proof fn law_swap_removal_keeps_the_others<T>(pool: Seq<T>, index: int)
    requires
        0 <= index < pool.len(),
    ensures
        swap_removed(pool, index).len() == pool.len() - 1,
        swap_removed(pool, index).to_multiset() == pool.to_multiset().remove(pool[index]),
        forall|j: int|
            0 <= j < pool.len() && j != index ==> swap_removed(pool, index).contains(
                #[trigger] pool[j],
            ),
        forall|j: int|
            0 <= j < pool.len() - 1 && j != index ==> swap_removed(pool, index)[j] == pool[j],
{
    broadcast use vstd::multiset::group_multiset_axioms;

    let after = swap_removed(pool, index);
    let last = pool.len() - 1;
    assert forall|j: int| 0 <= j < pool.len() && j != index implies after.contains(
        #[trigger] pool[j],
    ) by {
        if j == last {
            assert(after[index] == pool[j]);
        } else {
            assert(after[j] == pool[j]);
        }
    }
    if index == last {
        assert(after =~= pool.remove(index));
        vstd::seq_lib::to_multiset_remove(pool, index);
    } else {
        let shorter = pool.remove(last);
        vstd::seq_lib::to_multiset_remove(pool, last);
        vstd::seq_lib::to_multiset_remove(shorter, index);
        assert(after =~= shorter.remove(index).insert(index, pool[last]));
        vstd::seq_lib::to_multiset_insert(shorter.remove(index), index, pool[last]);
        pool.to_multiset_ensures();
        shorter.to_multiset_ensures();
        assert(pool.contains(pool[last]));
        assert(shorter[index] == pool[index]);
        assert(shorter.contains(shorter[index]));
        let whole = pool.to_multiset();
        assert(whole.count(pool[last]) > 0);
        assert(whole.remove(pool[last]).count(pool[index]) > 0);
        assert forall|v: T|
            whole.remove(pool[last]).remove(pool[index]).insert(pool[last]).count(v)
                == whole.remove(pool[index]).count(v) by {
            assert(whole.count(pool[index]) > 0);
        }
        assert(after.to_multiset() =~= pool.to_multiset().remove(pool[index]));
    }
}

/// No key path in the pool of a chain is the text of an account identifier.
pub proof fn law_key_paths_are_no_accounts(chain: ChainView, index: int, account_id: Seq<char>)
    requires
        chain.well_formed(),
        0 <= index < chain.paymasters.len(),
        is_valid_account_id(account_id),
    ensures
        chain.paymasters[index].key_path != account_id,
{
}

/// A withdrawal of more than the recorded balance is refused as
/// insufficient. The operations' own contracts say that a refused withdrawal
/// changes nothing, so asking again is refused again.
pub proof fn law_overdraft_is_refused(fees: Map<AssetIdView, u128>, asset: AssetIdView, amount: u128)
    requires
        fees.contains_key(asset),
        amount > fees[asset],
    ensures
        withdrawal(fees, asset, Some(amount)) == Err::<(Map<AssetIdView, u128>, u128), Error>(
            Error::InsufficientFees,
        ),
{
}

/// A withdrawal of the whole balance, asked for by amount or by naming no
/// amount, pays the balance out and leaves zero; the other entries stay.
pub proof fn law_full_withdrawal_leaves_zero(fees: Map<AssetIdView, u128>, asset: AssetIdView)
    requires
        fees.contains_key(asset),
    ensures
        withdrawal(fees, asset, None) == withdrawal(fees, asset, Some(fees[asset])),
        withdrawal(fees, asset, None) == Ok::<(Map<AssetIdView, u128>, u128), Error>(
            (fees.insert(asset, 0), fees[asset]),
        ),
{
}

/// After the whole balance has been withdrawn, a withdrawal of the same
/// amount is refused as insufficient, unless the balance was zero.
pub proof fn law_second_full_withdrawal_is_refused(fees: Map<AssetIdView, u128>, asset: AssetIdView)
    requires
        fees.contains_key(asset),
        fees[asset] > 0,
    ensures
        withdrawal(fees.insert(asset, 0), asset, Some(fees[asset])) == Err::<
            (Map<AssetIdView, u128>, u128),
            Error,
        >(Error::InsufficientFees),
{
}

/// Adding members that were not on the list and removing them again gives
/// the list that was there before.
pub proof fn law_add_then_remove_restores<A>(list: Set<A>, members: Set<A>)
    requires
        list.disjoint(members),
    ensures
        list.union(members).difference(members) == list,
{
    assert(list.union(members).difference(members) =~= list);
}

/// Adding twice is adding once, and removing twice is removing once.
pub proof fn law_add_and_remove_are_idempotent<A>(list: Set<A>, members: Set<A>)
    ensures
        list.union(members).union(members) == list.union(members),
        list.difference(members).difference(members) == list.difference(members),
        list.union(members).difference(members) == list.difference(members),
{
    assert(list.union(members).union(members) =~= list.union(members));
    assert(list.difference(members).difference(members) =~= list.difference(members));
    assert(list.union(members).difference(members) =~= list.difference(members));
}

/// A page of the ascending ids is itself ascending, and holds what lies
/// between its start and its end.
pub proof fn law_pages_are_ascending<T>(
    index: Map<u64, T>,
    offset: Option<u32>,
    limit: Option<u32>,
    i: int,
    j: int,
)
    requires
        lists_keys(ascending_ids(index), index),
        0 <= i < j < page_len(offset, limit, ascending_ids(index).len() as int),
    ensures
        page_start(offset, ascending_ids(index).len() as int) + j < ascending_ids(index).len(),
        ascending_ids(index)[page_start(offset, ascending_ids(index).len() as int) + i]
            < ascending_ids(index)[page_start(offset, ascending_ids(index).len() as int) + j],
{
}

/// Setting the signer to another identity leaves no cached key, and a
/// failed answer of the signer brings none: the state stays stale until an
/// answer with a key arrives.
pub proof fn law_new_signer_is_stale(
    state: ContractView,
    account_id: Seq<char>,
    failure: near_sdk::PromiseError,
    key: near_sdk::PublicKey,
)
    requires
        account_id != state.signer_contract_id,
    ensures
        !state.with_signer(account_id).is_fresh(),
        !state.with_signer(account_id).with_signer_answer(Err(failure)).is_fresh(),
        state.with_signer(account_id).with_signer_answer(Ok(key)).is_fresh(),
        state.with_signer(account_id).with_signer_answer(Ok(key)).signer_contract_public_key
            == Some(key),
{
}

/// Nothing but an answer of the signer with a key brings a key: a state
/// without a cached key has none after any other change.
pub proof fn law_only_an_answer_refreshes(
    state: ContractView,
    expire_sequence_after_ns: u64,
    flags: Flags,
    receivers: Set<Seq<u8>>,
    senders: Set<Seq<char>>,
    sequences: Map<u64, SequenceView>,
    fees: Map<AssetIdView, u128>,
    account_id: Seq<char>,
    failure: near_sdk::PromiseError,
    chain_id: u64,
    chain: ChainView,
    oracle_asset_id: Seq<char>,
    transfer_gas: u128,
    fee_rate: (u128, u128),
)
    requires
        !state.is_fresh(),
    ensures
        !state.with_expiry(expire_sequence_after_ns).is_fresh(),
        !state.with_flags(flags).is_fresh(),
        !state.with_receivers(receivers).is_fresh(),
        !state.with_senders(senders).is_fresh(),
        !state.with_sequences(sequences).is_fresh(),
        !state.with_fees(fees).is_fresh(),
        !state.with_signer(account_id).is_fresh(),
        !state.with_signer_answer(Err(failure)).is_fresh(),
        !state.with_chain_added(chain_id, oracle_asset_id, transfer_gas, fee_rate).is_fresh(),
        !state.with_chain_removed(chain_id).is_fresh(),
        !state.with_chain(chain_id, chain).is_fresh(),
{
}

/// Setting the signer to the identity it has keeps the cached key.
pub proof fn law_same_signer_keeps_key(state: ContractView)
    ensures
        state.with_signer(state.signer_contract_id) == state,
{
}

/// A chain that is added and removed at once is not registered, and a chain
/// that is then added under the same id starts with an empty pool and
/// cursor zero: nothing of the removed chain is left.
pub proof fn law_removed_chain_leaves_nothing(
    state: ContractView,
    chain_id: u64,
    oracle_asset_id: Seq<char>,
    transfer_gas: u128,
    fee_rate: (u128, u128),
    next_oracle_asset_id: Seq<char>,
    next_transfer_gas: u128,
    next_fee_rate: (u128, u128),
)
    ensures
        !state.with_chain_added(chain_id, oracle_asset_id, transfer_gas, fee_rate).with_chain_removed(
            chain_id,
        ).foreign_chains.contains_key(chain_id),
        state.with_chain_added(chain_id, oracle_asset_id, transfer_gas, fee_rate).with_chain_removed(
            chain_id,
        ) == state.with_chain_removed(chain_id),
        state.with_chain_added(chain_id, oracle_asset_id, transfer_gas, fee_rate).with_chain_removed(
            chain_id,
        ).with_chain_added(chain_id, next_oracle_asset_id, next_transfer_gas, next_fee_rate).foreign_chains[chain_id]
            == ChainView::fresh(next_oracle_asset_id, next_transfer_gas, next_fee_rate),
        ChainView::fresh(next_oracle_asset_id, next_transfer_gas, next_fee_rate).paymasters.len() == 0,
{
    assert(state.foreign_chains.insert(
        chain_id,
        ChainView::fresh(oracle_asset_id, transfer_gas, fee_rate),
    ).remove(chain_id) =~= state.foreign_chains.remove(chain_id));
}

/// Adding a chain under an id that was not registered and removing it gives
/// the state that was there before.
pub proof fn law_add_then_remove_chain_restores(
    state: ContractView,
    chain_id: u64,
    oracle_asset_id: Seq<char>,
    transfer_gas: u128,
    fee_rate: (u128, u128),
)
    requires
        !state.foreign_chains.contains_key(chain_id),
    ensures
        state.with_chain_added(chain_id, oracle_asset_id, transfer_gas, fee_rate).with_chain_removed(
            chain_id,
        ) == state,
{
    assert(state.foreign_chains.insert(
        chain_id,
        ChainView::fresh(oracle_asset_id, transfer_gas, fee_rate),
    ).remove(chain_id) =~= state.foreign_chains);
}

} // verus!
