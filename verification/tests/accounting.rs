use ethers_core::types::transaction::eip2718::TypedTransaction;
use ethers_core::types::{Eip1559TransactionRequest, TransactionRequest, H160};
use gas_station::account::AccountId;
use gas_station::address::ForeignAddress;
use gas_station::asset::AssetId;
use gas_station::chain::ChainConfiguration;
use gas_station::context::CallContext;
use gas_station::contract::Contract;
use gas_station::error::{Error, TransactionFault};
use gas_station::idmap::IdMap;
use gas_station::ledger::FeeLedger;
use gas_station::member::Member;
use gas_station::oracle::{AssetPrice, Price, PriceData};
use gas_station::paymaster::PaymasterConfiguration;
use gas_station::sequence::PendingTransactionSequence;
use gas_station::transaction::{
    decode_transaction_request, TransactionRequest as DecodedRequest, ValidTransactionRequest,
};
use gas_station::uint::U256;
use gas_station::whitelist::Whitelist;

fn named(name: &str) -> AccountId {
    AccountId::parse(name).unwrap()
}

fn by_owner(attached_deposit: u128) -> CallContext {
    CallContext {
        predecessor_account_id: named("owner.near"),
        current_account_id: named("station.near"),
        owner: Some(named("owner.near")),
        attached_deposit,
    }
}

fn by_stranger(attached_deposit: u128) -> CallContext {
    CallContext {
        predecessor_account_id: named("mallory.near"),
        current_account_id: named("station.near"),
        owner: Some(named("owner.near")),
        attached_deposit,
    }
}

fn by_station() -> CallContext {
    CallContext {
        predecessor_account_id: named("station.near"),
        current_account_id: named("station.near"),
        owner: Some(named("owner.near")),
        attached_deposit: 0,
    }
}

fn fresh_station() -> Contract {
    Contract::new(named("signer.near"), "local".to_string(), 0)
}

fn sequence(creator: &str, at: u64) -> PendingTransactionSequence {
    PendingTransactionSequence {
        created_by_account_id: named(creator),
        created_at_block_timestamp_ns: at,
        pending_signature_count: 2,
    }
}

fn station_with_ids(ids: &[u64]) -> Contract {
    let mut contract = fresh_station();
    for id in ids {
        contract.insert_transaction(*id, sequence("alice.near", *id * 100));
    }
    contract
}

fn listed(contract: &Contract, offset: Option<u32>, limit: Option<u32>) -> Vec<(String, u64)> {
    contract
        .list_transactions(offset, limit)
        .into_iter()
        .map(|(key, sequence)| (key, sequence.created_at_block_timestamp_ns))
        .collect()
}

fn token() -> AssetId {
    AssetId::Nep141(named("usdt.near"))
}

fn balances(contract: &Contract) -> Vec<(String, u128)> {
    let mut all: Vec<(String, u128)> = contract
        .get_collected_fees()
        .into_iter()
        .map(|(asset, amount)| {
            let name = match asset {
                AssetId::Native => "native".to_string(),
                AssetId::Nep141(contract) => contract.as_str().to_string(),
            };
            (name, amount)
        })
        .collect();
    all.sort();
    all
}

fn signer_key() -> near_sdk::PublicKey {
    "secp256k1:qMoRgcoXai4mBPsdbHi1wfyxF9TdbPCF4qSDQTRP3TfescSRoUdSx6nmeQoN3aiwGzwMyGXAb1gUjBTv5AY8DXj"
        .parse()
        .unwrap()
}

fn par_prices() -> PriceData {
    PriceData {
        prices: vec![
            AssetPrice { asset_id: "local".to_string(), price: Some(Price { multiplier: 1, decimals: 0 }) },
            AssetPrice { asset_id: "eth".to_string(), price: Some(Price { multiplier: 1, decimals: 0 }) },
        ],
    }
}

fn request(chain_id: u64, gas: u64, gas_price: u64) -> ValidTransactionRequest {
    ValidTransactionRequest {
        chain_id,
        receiver: ForeignAddress([0x11; 20]),
        gas: U256::from_u64(gas),
        gas_price: U256::from_u64(gas_price),
    }
}

fn station_with_eth() -> Contract {
    let mut contract = fresh_station();
    contract.add_foreign_chain(&by_owner(0), 1, "eth".to_string(), 21000, (1, 1)).unwrap();
    contract
}

fn legacy_hex(chain_id: u64, gas: u64, gas_price: u64) -> String {
    let tx = TransactionRequest::new()
        .chain_id(chain_id)
        .to(H160([0x11; 20]))
        .gas(gas)
        .gas_price(gas_price)
        .value(5u64)
        .nonce(3u64);
    let typed = TypedTransaction::Legacy(tx);
    ethers_core::utils::hex::encode(typed.rlp())
}

#[test]
fn list_transactions_pages_by_ascending_id() {
    let contract = station_with_ids(&[5, 1, 7, 3]);
    assert_eq!(listed(&contract, Some(2), Some(1)), vec![("5".to_string(), 500)]);
}

#[test]
fn list_transactions_defaults_to_everything() {
    let contract = station_with_ids(&[7, 3, 5, 1]);
    assert_eq!(
        listed(&contract, None, None),
        vec![
            ("1".to_string(), 100),
            ("3".to_string(), 300),
            ("5".to_string(), 500),
            ("7".to_string(), 700)
        ]
    );
    assert_eq!(listed(&contract, Some(3), None), vec![("7".to_string(), 700)]);
    assert_eq!(
        listed(&contract, None, Some(2)),
        vec![("1".to_string(), 100), ("3".to_string(), 300)]
    );
}

#[test]
fn list_transactions_past_the_end() {
    let contract = station_with_ids(&[1, 3]);
    assert!(listed(&contract, Some(2), None).is_empty());
    assert!(listed(&contract, Some(u32::MAX), Some(u32::MAX)).is_empty());
    assert!(listed(&contract, Some(0), Some(0)).is_empty());
    assert_eq!(listed(&contract, Some(1), Some(10)), vec![("3".to_string(), 300)]);
}

#[test]
fn list_transactions_orders_by_number_not_by_text() {
    let contract = station_with_ids(&[10, 9, 100]);
    assert_eq!(
        listed(&contract, None, None),
        vec![("9".to_string(), 900), ("10".to_string(), 1000), ("100".to_string(), 10000)]
    );
}

#[test]
fn get_transaction_finds_or_reports_absence() {
    let contract = station_with_ids(&[1, 3]);
    let found = contract.get_transaction(3).unwrap();
    assert_eq!(found.created_by_account_id.as_str(), "alice.near");
    assert_eq!(found.created_at_block_timestamp_ns, 300);
    assert_eq!(found.pending_signature_count, 2);
    assert!(contract.get_transaction(2).is_none());
}

#[test]
fn insert_transaction_replaces_and_remove_takes_out() {
    let mut contract = station_with_ids(&[1, 3]);
    contract.insert_transaction(3, sequence("bob.near", 9));
    assert_eq!(contract.get_transaction(3).unwrap().created_by_account_id.as_str(), "bob.near");
    let taken = contract.remove_transaction(1).unwrap();
    assert_eq!(taken.created_at_block_timestamp_ns, 100);
    assert!(contract.remove_transaction(1).is_none());
    assert_eq!(listed(&contract, None, None), vec![("3".to_string(), 9)]);
}

#[test]
fn collect_fee_accumulates_per_asset() {
    let mut contract = fresh_station();
    assert_eq!(contract.collect_fee(AssetId::Native, 10), Ok(()));
    assert_eq!(contract.collect_fee(token(), 7), Ok(()));
    assert_eq!(contract.collect_fee(AssetId::Native, 5), Ok(()));
    assert_eq!(balances(&contract), vec![("native".to_string(), 15), ("usdt.near".to_string(), 7)]);
}

#[test]
fn collect_fee_refuses_overflow() {
    let mut contract = fresh_station();
    contract.collect_fee(AssetId::Native, u128::MAX).unwrap();
    assert_eq!(contract.collect_fee(AssetId::Native, 1), Err(Error::ArithmeticOverflow));
    assert_eq!(balances(&contract), vec![("native".to_string(), u128::MAX)]);
}

#[test]
fn withdraw_pays_the_named_amount_to_the_named_receiver() {
    let mut contract = fresh_station();
    contract.collect_fee(token(), 100).unwrap();
    let granted = contract
        .withdraw_collected_fees(&by_owner(1), token(), Some(30), Some(named("treasury.near")))
        .unwrap();
    assert!(granted.asset_id.same(&token()));
    assert_eq!(granted.receiver_id.as_str(), "treasury.near");
    assert_eq!(granted.amount, 30);
    assert_eq!(balances(&contract), vec![("usdt.near".to_string(), 70)]);
}

#[test]
fn withdraw_defaults_to_whole_balance_and_owner() {
    let mut contract = fresh_station();
    contract.collect_fee(AssetId::Native, 100).unwrap();
    let granted = contract.withdraw_collected_fees(&by_owner(1), AssetId::Native, None, None).unwrap();
    assert_eq!(granted.receiver_id.as_str(), "owner.near");
    assert_eq!(granted.amount, 100);
    assert_eq!(balances(&contract), vec![("native".to_string(), 0)]);
}

#[test]
fn withdraw_more_than_balance_fails_and_changes_nothing() {
    let mut contract = fresh_station();
    contract.collect_fee(AssetId::Native, 100).unwrap();
    for _ in 0..2 {
        assert_eq!(
            contract.withdraw_collected_fees(&by_owner(1), AssetId::Native, Some(101), None).unwrap_err(),
            Error::InsufficientFees
        );
        assert_eq!(balances(&contract), vec![("native".to_string(), 100)]);
    }
}

#[test]
fn withdraw_full_balance_then_again_is_refused() {
    let mut contract = fresh_station();
    contract.collect_fee(AssetId::Native, 100).unwrap();
    let granted =
        contract.withdraw_collected_fees(&by_owner(1), AssetId::Native, Some(100), None).unwrap();
    assert_eq!(granted.amount, 100);
    assert_eq!(balances(&contract), vec![("native".to_string(), 0)]);
    assert_eq!(
        contract.withdraw_collected_fees(&by_owner(1), AssetId::Native, Some(100), None).unwrap_err(),
        Error::InsufficientFees
    );
    assert_eq!(balances(&contract), vec![("native".to_string(), 0)]);
}

#[test]
fn withdraw_of_whole_empty_balance_pays_nothing() {
    let mut contract = fresh_station();
    contract.collect_fee(AssetId::Native, 0).unwrap();
    let granted = contract.withdraw_collected_fees(&by_owner(1), AssetId::Native, None, None).unwrap();
    assert_eq!(granted.amount, 0);
}

#[test]
fn withdraw_refusals_come_in_order() {
    let mut contract = fresh_station();
    contract.collect_fee(AssetId::Native, 100).unwrap();
    // No stake, by whomever: the stake is asked for first.
    assert_eq!(
        contract.withdraw_collected_fees(&by_stranger(0), AssetId::Native, None, None).unwrap_err(),
        Error::ConfirmationStakeRequired
    );
    assert_eq!(
        contract.withdraw_collected_fees(&by_owner(2), AssetId::Native, None, None).unwrap_err(),
        Error::ConfirmationStakeRequired
    );
    assert_eq!(
        contract.withdraw_collected_fees(&by_stranger(1), AssetId::Native, None, None).unwrap_err(),
        Error::PermissionDenied
    );
    assert_eq!(
        contract.withdraw_collected_fees(&by_owner(1), token(), None, None).unwrap_err(),
        Error::FeeEntryNotFound
    );
    assert_eq!(balances(&contract), vec![("native".to_string(), 100)]);
}

#[test]
fn fee_ledger_on_its_own() {
    let mut ledger = FeeLedger::new();
    assert_eq!(ledger.balance(&AssetId::Native), None);
    ledger.credit(AssetId::Native, 9).unwrap();
    assert_eq!(ledger.balance(&AssetId::Native), Some(9));
    assert_eq!(ledger.withdraw(&AssetId::Native, Some(4)), Ok(4));
    assert_eq!(ledger.withdraw(&AssetId::Native, Some(6)), Err(Error::InsufficientFees));
    assert_eq!(ledger.withdraw(&token(), None), Err(Error::FeeEntryNotFound));
    assert_eq!(ledger.balance(&AssetId::Native), Some(5));
    assert_eq!(ledger.entries().len(), 1);
}

#[test]
fn asset_ids_are_told_apart() {
    assert!(AssetId::Native.same(&AssetId::Native));
    assert!(!AssetId::Native.same(&token()));
    assert!(token().same(&token().duplicate()));
    assert!(!token().same(&AssetId::Nep141(named("usdc.near"))));
}

#[test]
fn id_map_keeps_entries_in_order() {
    let mut map: IdMap<PendingTransactionSequence> = IdMap::new();
    assert_eq!(map.len(), 0);
    map.insert(9, sequence("alice.near", 9));
    map.insert(2, sequence("alice.near", 2));
    map.insert(5, sequence("alice.near", 5));
    map.insert(2, sequence("alice.near", 22));
    assert_eq!(map.len(), 3);
    assert!(map.contains_key(5));
    assert!(!map.contains_key(6));
    assert_eq!(map.get(2).unwrap().created_at_block_timestamp_ns, 22);
    assert_eq!(map.nth(0).unwrap().0, 2);
    assert_eq!(map.nth(1).unwrap().0, 5);
    assert_eq!(map.nth(2).unwrap().0, 9);
    assert!(map.nth(3).is_none());
    assert_eq!(map.remove(5).unwrap().created_at_block_timestamp_ns, 5);
    assert!(map.remove(5).is_none());
    assert_eq!(map.nth(1).unwrap().0, 9);
}

#[test]
fn whitelist_on_its_own() {
    let mut list: Whitelist<ForeignAddress> = Whitelist::new();
    list.insert(ForeignAddress([1; 20]));
    list.insert(ForeignAddress([1; 20]));
    list.insert(ForeignAddress([2; 20]));
    assert_eq!(list.len(), 2);
    assert!(list.contains(&ForeignAddress([2; 20])));
    list.remove(&ForeignAddress([2; 20]));
    list.remove(&ForeignAddress([3; 20]));
    assert!(!list.contains(&ForeignAddress([2; 20])));
    assert_eq!(list.members().len(), 1);
    let mut almost = [1u8; 20];
    almost[19] = 0;
    assert!(!list.contains(&ForeignAddress(almost)));
}

#[test]
fn signer_change_drops_the_key_until_refreshed() {
    let mut contract = fresh_station();
    let alice = named("alice.near");
    let context = by_owner(0);
    // No key has been fetched yet.
    assert_eq!(
        contract.get_foreign_address_for(&context, &alice).err(),
        Some(Error::SignerKeyUnavailable)
    );
    assert_eq!(contract.refresh_signer_public_key(&by_owner(0)).unwrap().as_str(), "signer.near");
    assert_eq!(contract.refresh_signer_public_key_callback(&by_station(), Ok(signer_key())), Ok(()));
    {
        let derivation = contract.get_foreign_address_for(&context, &alice).unwrap();
        assert_eq!(*derivation.public_key, signer_key());
        assert_eq!(derivation.contract_id.as_str(), "station.near");
        assert_eq!(derivation.account_id.as_str(), "alice.near");
    }
    // Another signer: the key is gone.
    assert_eq!(contract.set_signer_contract_id(&by_owner(0), named("other-signer.near")), Ok(()));
    assert_eq!(contract.get_signer_contract_id().as_str(), "other-signer.near");
    assert!(contract.get_foreign_address_for(&context, &alice).is_err());
    // A failed refresh leaves it gone.
    assert_eq!(
        contract.refresh_signer_public_key_callback(&by_station(), Err(near_sdk::PromiseError::Failed)),
        Err(Error::RemoteCallFailed)
    );
    assert!(contract.get_foreign_address_for(&context, &alice).is_err());
    // Other operations do not bring it back.
    contract.add_foreign_chain(&by_owner(0), 1, "eth".to_string(), 21000, (1, 1)).unwrap();
    contract.set_expire_sequence_after_ns(&by_owner(0), 1).unwrap();
    assert!(contract.get_foreign_address_for(&context, &alice).is_err());
    assert_eq!(contract.refresh_signer_public_key(&by_owner(0)).unwrap().as_str(), "other-signer.near");
    assert_eq!(contract.refresh_signer_public_key_callback(&by_station(), Ok(signer_key())), Ok(()));
    assert!(contract.get_foreign_address_for(&context, &alice).is_ok());
}

#[test]
fn signer_set_to_the_same_id_keeps_the_key() {
    let mut contract = fresh_station();
    contract.refresh_signer_public_key_callback(&by_station(), Ok(signer_key())).unwrap();
    assert_eq!(contract.set_signer_contract_id(&by_owner(0), named("signer.near")), Ok(()));
    assert!(contract.get_foreign_address_for(&by_owner(0), &named("alice.near")).is_ok());
}

#[test]
fn signer_operations_refuse_the_wrong_caller() {
    let mut contract = fresh_station();
    assert_eq!(
        contract.set_signer_contract_id(&by_stranger(0), named("evil.near")),
        Err(Error::PermissionDenied)
    );
    assert_eq!(contract.get_signer_contract_id().as_str(), "signer.near");
    assert_eq!(contract.refresh_signer_public_key(&by_stranger(0)).err(), Some(Error::PermissionDenied));
    // Not even the owner may hand in the signer's answer.
    assert_eq!(
        contract.refresh_signer_public_key_callback(&by_owner(0), Ok(signer_key())),
        Err(Error::PermissionDenied)
    );
    assert_eq!(
        contract.refresh_signer_public_key_callback(&by_stranger(0), Err(near_sdk::PromiseError::Failed)),
        Err(Error::PermissionDenied)
    );
    assert!(contract.get_foreign_address_for(&by_owner(0), &named("alice.near")).is_err());
}

#[test]
fn estimate_gas_cost_at_par() {
    let contract = station_with_eth();
    assert_eq!(contract.estimate_gas_cost_of(&request(1, 50000, 1), &par_prices()), Ok(71000));
}

#[test]
fn estimate_gas_cost_from_hex_at_par() {
    let contract = station_with_eth();
    assert_eq!(contract.estimate_gas_cost(&legacy_hex(1, 50000, 1), &par_prices()), Ok(71000));
}

#[test]
fn estimate_gas_cost_scales_with_price_and_fee() {
    let mut contract = fresh_station();
    contract.add_foreign_chain(&by_owner(0), 1, "eth".to_string(), 21000, (12, 10)).unwrap();
    let prices = PriceData {
        prices: vec![
            AssetPrice { asset_id: "eth".to_string(), price: Some(Price { multiplier: 3000, decimals: 0 }) },
            AssetPrice { asset_id: "local".to_string(), price: Some(Price { multiplier: 40, decimals: 1 }) },
        ],
    };
    // (50000 + 21000) * 2 = 142000 units; times 3000 / 4 = 750; times 12 / 10.
    assert_eq!(contract.estimate_gas_cost_of(&request(1, 50000, 2), &prices), Ok(127_800_000));
    // The transfer gas is read when the estimate is made.
    contract.set_foreign_chain_transfer_gas(&by_owner(0), 1, 0).unwrap();
    assert_eq!(contract.estimate_gas_cost_of(&request(1, 50000, 2), &prices), Ok(90_000_000));
}

#[test]
fn estimate_gas_cost_refusals() {
    let contract = station_with_eth();
    assert_eq!(
        contract.estimate_gas_cost_of(&request(2, 50000, 1), &par_prices()),
        Err(Error::ForeignChainNotFound)
    );
    assert_eq!(
        contract.estimate_gas_cost(&legacy_hex(2, 50000, 1), &par_prices()),
        Err(Error::ForeignChainNotFound)
    );
    assert_eq!(
        contract.estimate_gas_cost("zz", &par_prices()),
        Err(Error::InvalidTransaction(TransactionFault::NotHexadecimal))
    );
    assert_eq!(
        contract.estimate_gas_cost("c0", &par_prices()),
        Err(Error::InvalidTransaction(TransactionFault::Undecodable))
    );
    let no_prices = PriceData { prices: vec![] };
    assert_eq!(
        contract.estimate_gas_cost_of(&request(1, 50000, 1), &no_prices),
        Err(Error::PriceUnavailable)
    );
    let unquoted = PriceData {
        prices: vec![
            AssetPrice { asset_id: "local".to_string(), price: Some(Price { multiplier: 1, decimals: 0 }) },
            AssetPrice { asset_id: "eth".to_string(), price: None },
        ],
    };
    assert_eq!(
        contract.estimate_gas_cost_of(&request(1, 50000, 1), &unquoted),
        Err(Error::PriceUnavailable)
    );
    let huge = ValidTransactionRequest {
        chain_id: 1,
        receiver: ForeignAddress([0; 20]),
        gas: U256 { limbs: [u64::MAX; 4] },
        gas_price: U256::from_u64(1),
    };
    assert_eq!(contract.estimate_gas_cost_of(&huge, &par_prices()), Err(Error::ArithmeticOverflow));
    let free = ValidTransactionRequest { gas_price: U256::zero(), ..huge };
    assert_eq!(contract.estimate_gas_cost_of(&free, &par_prices()), Ok(0));
    let wide = ValidTransactionRequest {
        chain_id: 1,
        receiver: ForeignAddress([0; 20]),
        gas: U256 { limbs: [0, 0, 1, 0] },
        gas_price: U256::from_u64(1),
    };
    assert_eq!(contract.estimate_gas_cost_of(&wide, &par_prices()), Err(Error::ArithmeticOverflow));
}

#[test]
fn chain_configuration_on_its_own() {
    let mut chain = ChainConfiguration::new("eth".to_string(), 21000, (3, 2)).unwrap();
    assert_eq!(chain.oracle_asset_id(), "eth");
    assert_eq!(chain.transfer_gas().limbs, [21000, 0, 0, 0]);
    assert_eq!(chain.fee_rate(), (3, 2));
    assert_eq!(chain.cursor(), 0);
    assert_eq!(chain.paymaster_count(), 0);
    assert_eq!(chain.add_paymaster(1, "k/0".to_string()), Ok(0));
    assert_eq!(chain.add_paymaster(2, "k/1".to_string()), Ok(1));
    assert_eq!(chain.next_paymaster().unwrap().key_path(), "k/0");
    assert_eq!(chain.cursor(), 1);
    chain.clear_paymasters();
    assert_eq!(chain.paymaster_count(), 0);
    assert!(chain.next_paymaster().is_none());
    assert_eq!(chain.cursor(), 1);
    assert_eq!(chain.foreign_token_price("local", &par_prices(), U256::from_u64(10)), Ok(15));
    assert_eq!(chain.estimate("local", &par_prices(), U256::from_u64(79000), U256::from_u64(1)), Ok(150000));
    assert_eq!(
        ChainConfiguration::new("eth".to_string(), 1, (1, 0)).unwrap_err(),
        Error::ZeroFeeDenominator
    );
}

#[test]
fn decode_reads_a_legacy_request() {
    let decoded = decode_transaction_request(&legacy_hex(97, 50000, 12)).unwrap();
    assert_eq!(decoded.chain_id, 97);
    assert_eq!(decoded.receiver.0, [0x11; 20]);
    assert_eq!(decoded.gas.limbs, [50000, 0, 0, 0]);
    assert_eq!(decoded.gas_price.limbs, [12, 0, 0, 0]);
}

#[test]
fn decode_reads_a_fee_market_request() {
    let tx = Eip1559TransactionRequest::new()
        .chain_id(5u64)
        .to(H160([0x22; 20]))
        .gas(30000u64)
        .max_fee_per_gas(100u64)
        .max_priority_fee_per_gas(2u64)
        .value(1u64)
        .nonce(0u64);
    let hex = ethers_core::utils::hex::encode(TypedTransaction::Eip1559(tx).rlp());
    let decoded = decode_transaction_request(&hex).unwrap();
    assert_eq!(decoded.chain_id, 5);
    assert_eq!(decoded.receiver.0, [0x22; 20]);
    assert_eq!(decoded.gas.limbs, [30000, 0, 0, 0]);
    assert_eq!(decoded.gas_price.limbs, [100, 0, 0, 0]);
    // A leading 0x is read over.
    assert_eq!(decode_transaction_request(&format!("0x{hex}")).unwrap().chain_id, 5);
}

#[test]
fn decode_reads_hexadecimal_of_either_case() {
    let lower = legacy_hex(97, 50000, 12);
    let upper = lower.to_uppercase();
    assert_ne!(lower, upper);
    assert_eq!(decode_transaction_request(&upper).unwrap().chain_id, 97);
    assert_eq!(decode_transaction_request(&format!("0X{upper}")).unwrap().chain_id, 97);
    let not_hex = Error::InvalidTransaction(TransactionFault::NotHexadecimal);
    // The prefix is read over once only, and counts for the length.
    assert_eq!(decode_transaction_request(&format!("0x0x{lower}")).unwrap_err(), not_hex);
    assert_eq!(decode_transaction_request("0xc").unwrap_err(), not_hex);
    assert_eq!(decode_transaction_request("c0 ").unwrap_err(), not_hex);
    assert_eq!(decode_transaction_request("\u{e9}").unwrap_err(), not_hex);
    assert_eq!(
        decode_transaction_request("0x").unwrap_err(),
        Error::InvalidTransaction(TransactionFault::Undecodable)
    );
}

#[test]
fn decode_refuses_what_is_no_request() {
    let not_hex = Error::InvalidTransaction(TransactionFault::NotHexadecimal);
    let undecodable = Error::InvalidTransaction(TransactionFault::Undecodable);
    assert_eq!(decode_transaction_request("abc").unwrap_err(), not_hex);
    assert_eq!(decode_transaction_request("not hex").unwrap_err(), not_hex);
    assert_eq!(decode_transaction_request("").unwrap_err(), undecodable);
    // A string item of nine bytes and more cannot start a request.
    assert_eq!(decode_transaction_request("89010203040506070809").unwrap_err(), undecodable);
    assert_eq!(decode_transaction_request(&format!("b838{}", "00".repeat(56))).unwrap_err(), undecodable);
    assert_eq!(decode_transaction_request("8801020304050607").unwrap_err(), undecodable);
}

#[test]
fn validate_needs_every_field() {
    let full = DecodedRequest {
        chain_id: Some(1),
        receiver: Some(ForeignAddress([1; 20])),
        gas: Some(U256::from_u64(2)),
        gas_price: Some(U256::from_u64(3)),
    };
    let valid = ValidTransactionRequest::validate(full).unwrap();
    assert_eq!((valid.chain_id, valid.gas.limbs[0], valid.gas_price.limbs[0]), (1, 2, 3));
    let lacking = [
        (
            DecodedRequest { chain_id: None, receiver: None, gas: None, gas_price: None },
            TransactionFault::ChainIdMissing,
        ),
        (
            DecodedRequest { chain_id: Some(1), receiver: None, gas: None, gas_price: Some(U256::zero()) },
            TransactionFault::ReceiverMissing,
        ),
        (
            DecodedRequest {
                chain_id: Some(1),
                receiver: Some(ForeignAddress([1; 20])),
                gas: None,
                gas_price: None,
            },
            TransactionFault::GasMissing,
        ),
        (
            DecodedRequest {
                chain_id: Some(1),
                receiver: Some(ForeignAddress([1; 20])),
                gas: Some(U256::zero()),
                gas_price: None,
            },
            TransactionFault::GasPriceMissing,
        ),
    ];
    for (request, fault) in lacking {
        assert_eq!(
            ValidTransactionRequest::validate(request).unwrap_err(),
            Error::InvalidTransaction(fault)
        );
    }
}

#[test]
fn decode_refuses_a_request_without_receiver() {
    let tx = TransactionRequest::new().chain_id(1u64).gas(1u64).gas_price(1u64).value(0u64).nonce(0u64);
    let hex = ethers_core::utils::hex::encode(TypedTransaction::Legacy(tx).rlp());
    assert_eq!(
        decode_transaction_request(&hex).unwrap_err(),
        Error::InvalidTransaction(TransactionFault::ReceiverMissing)
    );
}

fn paymasters(count: u32) -> Vec<PaymasterConfiguration> {
    (0..count).map(|i| PaymasterConfiguration::new(i * 10, format!("path/{i}")).unwrap()).collect()
}

#[test]
fn cursor_wraps_at_the_end_of_its_counter() {
    let mut chain =
        ChainConfiguration::restore("eth".to_string(), 21000, (1, 1), paymasters(3), u32::MAX - 1).unwrap();
    // 4294967294 = 3 * 1431655764 + 2, then 4294967295 = 3 * 1431655765, then zero again.
    assert_eq!(chain.next_paymaster().unwrap().nonce(), 20);
    assert_eq!(chain.cursor(), u32::MAX);
    assert_eq!(chain.next_paymaster().unwrap().nonce(), 0);
    assert_eq!(chain.cursor(), 0);
    assert_eq!(chain.next_paymaster().unwrap().nonce(), 0);
    assert_eq!(chain.cursor(), 1);
    assert_eq!(chain.next_paymaster().unwrap().nonce(), 10);
}

#[test]
fn restore_keeps_pool_and_cursor() {
    let chain = ChainConfiguration::restore("eth".to_string(), 5, (7, 9), paymasters(2), 41).unwrap();
    assert_eq!(chain.oracle_asset_id(), "eth");
    assert_eq!(chain.transfer_gas().limbs, [5, 0, 0, 0]);
    assert_eq!(chain.fee_rate(), (7, 9));
    assert_eq!(chain.cursor(), 41);
    assert_eq!(chain.paymaster_count(), 2);
    let listed: Vec<(u32, String)> =
        chain.paymasters().iter().map(|p| (p.nonce(), p.key_path().to_string())).collect();
    assert_eq!(listed, vec![(0, "path/0".to_string()), (10, "path/1".to_string())]);
    assert_eq!(
        ChainConfiguration::restore("eth".to_string(), 5, (7, 0), paymasters(2), 41).unwrap_err(),
        Error::ZeroFeeDenominator
    );
}
