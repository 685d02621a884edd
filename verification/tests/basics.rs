use gas_station::account::AccountId;
use gas_station::error::{Error, ErrorClass, TransactionFault};
use gas_station::oracle::{convert, pow10_u256, product4, str_equal, AssetPrice, Price, PriceData};
use gas_station::sequence::id_text;
use gas_station::uint::U256;

#[test]
fn account_id_accepts_plain_names() {
    assert!(AccountId::is_valid("alice.near"));
    assert!(AccountId::is_valid("a1"));
    assert!(AccountId::is_valid("gas-station_v2.testnet"));
    assert!(AccountId::is_valid(&"a".repeat(64)));
    assert_eq!(AccountId::parse("alice.near").unwrap().as_str(), "alice.near");
}

#[test]
fn account_id_rejects_by_length() {
    assert!(!AccountId::is_valid(""));
    assert!(!AccountId::is_valid("a"));
    assert!(!AccountId::is_valid(&"a".repeat(65)));
}

#[test]
fn account_id_rejects_bad_characters() {
    assert!(!AccountId::is_valid("Alice.near"));
    assert!(!AccountId::is_valid("alice near"));
    assert!(!AccountId::is_valid("m/44'/60'/0'/0/0"));
    assert!(!AccountId::is_valid("al\u{e9}"));
}

#[test]
fn account_id_rejects_misplaced_separators() {
    assert!(!AccountId::is_valid(".alice"));
    assert!(!AccountId::is_valid("alice."));
    assert!(!AccountId::is_valid("alice..near"));
    assert!(!AccountId::is_valid("alice-.near"));
    assert!(!AccountId::is_valid("-alice"));
    assert!(!AccountId::is_valid("alice_"));
}

#[test]
fn account_id_parse_reports_invalid() {
    assert_eq!(AccountId::parse("Not An Account").unwrap_err(), Error::InvalidAccountId);
}

#[test]
fn account_id_duplicate_is_equal() {
    let id = AccountId::parse("alice.near").unwrap();
    let copy = id.duplicate();
    assert_eq!(copy.as_str(), "alice.near");
}

#[test]
fn error_classes() {
    assert_eq!(Error::PermissionDenied.class(), ErrorClass::PermissionDenied);
    assert_eq!(Error::ConfirmationStakeRequired.class(), ErrorClass::PermissionDenied);
    assert_eq!(Error::ForeignChainNotFound.class(), ErrorClass::NotFound);
    assert_eq!(Error::PaymasterNotFound.class(), ErrorClass::NotFound);
    assert_eq!(Error::FeeEntryNotFound.class(), ErrorClass::NotFound);
    assert_eq!(Error::SignerKeyUnavailable.class(), ErrorClass::NotFound);
    assert_eq!(Error::RemoteCallFailed.class(), ErrorClass::RemoteCallFailed);
    assert_eq!(Error::InvalidAccountId.class(), ErrorClass::ValidationFailed);
    assert_eq!(Error::KeyPathIsAccountId.class(), ErrorClass::ValidationFailed);
    assert_eq!(Error::ZeroFeeDenominator.class(), ErrorClass::ValidationFailed);
    assert_eq!(Error::InsufficientFees.class(), ErrorClass::ValidationFailed);
    assert_eq!(
        Error::InvalidTransaction(TransactionFault::Undecodable).class(),
        ErrorClass::ValidationFailed
    );
    assert_eq!(Error::PriceUnavailable.class(), ErrorClass::ValidationFailed);
    assert_eq!(Error::ArithmeticOverflow.class(), ErrorClass::ValidationFailed);
}

#[test]
fn u256_from_u128_splits_into_limbs() {
    let x = U256::from_u128(0x0123_4567_89ab_cdef_0011_2233_4455_6677);
    assert_eq!(x.limbs, [0x0011_2233_4455_6677, 0x0123_4567_89ab_cdef, 0, 0]);
    assert_eq!(U256::from_u128(0).limbs, [0, 0, 0, 0]);
    assert_eq!(U256::from_u128(u128::MAX).limbs, [u64::MAX, u64::MAX, 0, 0]);
}

#[test]
fn u256_from_u64_and_zero() {
    assert_eq!(U256::from_u64(7).limbs, [7, 0, 0, 0]);
    assert_eq!(U256::zero().limbs, [0, 0, 0, 0]);
    assert!(U256::zero().is_zero());
    assert!(!U256::from_u64(1).is_zero());
    assert!(!U256 { limbs: [0, 0, 0, 1] }.is_zero());
}

#[test]
fn u256_checked_add_carries_and_overflows() {
    let a = U256 { limbs: [u64::MAX, 0, 0, 0] };
    let sum = a.checked_add(U256::from_u64(1)).unwrap();
    assert_eq!(sum.limbs, [0, 1, 0, 0]);
    let max = U256 { limbs: [u64::MAX; 4] };
    assert!(max.checked_add(U256::from_u64(1)).is_none());
    assert_eq!(max.checked_add(U256::zero()).unwrap().limbs, [u64::MAX; 4]);
}

#[test]
fn u256_checked_mul_exact_and_overflow() {
    let a = U256::from_u128(1 << 100);
    let b = U256::from_u128(1 << 100);
    let product = a.checked_mul(b).unwrap();
    assert_eq!(product.limbs, [0, 0, 0, 1 << 8]);
    let big = U256 { limbs: [0, 0, 1, 0] };
    assert!(big.checked_mul(big).is_none());
    assert_eq!(U256::from_u64(6).checked_mul(U256::from_u64(7)).unwrap().limbs, [42, 0, 0, 0]);
}

#[test]
fn u256_checked_div_rem() {
    let (q, r) = U256::from_u64(17).checked_div_rem(U256::from_u64(5)).unwrap();
    assert_eq!(q.limbs, [3, 0, 0, 0]);
    assert_eq!(r.limbs, [2, 0, 0, 0]);
    assert!(U256::from_u64(17).checked_div_rem(U256::zero()).is_none());
    let wide = U256 { limbs: [0, 0, 1, 0] };
    let (q, r) = wide.checked_div_rem(U256 { limbs: [0, 1, 0, 0] }).unwrap();
    assert_eq!(q.limbs, [0, 1, 0, 0]);
    assert_eq!(r.limbs, [0, 0, 0, 0]);
}

#[test]
fn u256_to_u128_fits_or_not() {
    assert_eq!(U256::from_u128(u128::MAX).to_u128(), Some(u128::MAX));
    assert_eq!(U256 { limbs: [5, 9, 0, 0] }.to_u128(), Some(5 + (9u128 << 64)));
    assert_eq!(U256 { limbs: [0, 0, 1, 0] }.to_u128(), None);
    assert_eq!(U256 { limbs: [0, 0, 0, 1] }.to_u128(), None);
}

#[test]
fn id_text_is_decimal() {
    assert_eq!(id_text(0), "0");
    assert_eq!(id_text(7), "7");
    assert_eq!(id_text(10), "10");
    assert_eq!(id_text(1234567890), "1234567890");
    assert_eq!(id_text(u64::MAX), "18446744073709551615");
}

#[test]
fn str_equal_compares_texts() {
    assert!(str_equal("near", "near"));
    assert!(!str_equal("near", "eth"));
    assert!(str_equal("", ""));
}

#[test]
fn pow10_u256_values() {
    assert_eq!(pow10_u256(0).unwrap().limbs, [1, 0, 0, 0]);
    assert_eq!(pow10_u256(3).unwrap().limbs, [1000, 0, 0, 0]);
    assert_eq!(pow10_u256(20).unwrap().to_u128(), Some(100_000_000_000_000_000_000));
    assert!(pow10_u256(77).is_some());
    assert!(pow10_u256(78).is_none());
    assert!(pow10_u256(255).is_none());
}

#[test]
fn product4_exact_zero_and_overflow() {
    let two = U256::from_u64(2);
    assert_eq!(product4(two, two, two, two).unwrap().limbs, [16, 0, 0, 0]);
    let huge = U256 { limbs: [0, 0, 0, 1] };
    assert!(product4(huge, huge, two, two).is_none());
    assert_eq!(product4(huge, huge, U256::zero(), two).unwrap().limbs, [0, 0, 0, 0]);
}

#[test]
fn price_of_takes_first_entry() {
    let data = PriceData {
        prices: vec![
            AssetPrice { asset_id: "near".to_string(), price: Some(Price { multiplier: 5, decimals: 1 }) },
            AssetPrice { asset_id: "eth".to_string(), price: None },
            AssetPrice { asset_id: "near".to_string(), price: Some(Price { multiplier: 9, decimals: 9 }) },
        ],
    };
    assert_eq!(data.price_of("near"), Some(Price { multiplier: 5, decimals: 1 }));
    assert_eq!(data.price_of("eth"), None);
    assert_eq!(data.price_of("btc"), None);
}

#[test]
fn convert_at_par() {
    let one = Price { multiplier: 1, decimals: 0 };
    assert_eq!(convert(U256::from_u64(71000), one, one, (1, 1)), Some(71000));
}

#[test]
fn convert_rounds_up() {
    let local = Price { multiplier: 3, decimals: 0 };
    let foreign = Price { multiplier: 1, decimals: 0 };
    // 10 / 3 is rounded up to 4; 9 / 3 is exactly 3.
    assert_eq!(convert(U256::from_u64(10), local, foreign, (1, 1)), Some(4));
    assert_eq!(convert(U256::from_u64(9), local, foreign, (1, 1)), Some(3));
    assert_eq!(convert(U256::from_u64(0), local, foreign, (1, 1)), Some(0));
}

#[test]
fn convert_applies_decimals_and_fee() {
    // The foreign asset is worth 2.5, the local one 0.05: fifty to one.
    let local = Price { multiplier: 5, decimals: 2 };
    let foreign = Price { multiplier: 25, decimals: 1 };
    assert_eq!(convert(U256::from_u64(100), local, foreign, (1, 1)), Some(5000));
    // A fee rate of 6/5 adds a fifth.
    assert_eq!(convert(U256::from_u64(100), local, foreign, (6, 5)), Some(6000));
    // 7 * 50 * 11 / 10 = 385.
    assert_eq!(convert(U256::from_u64(7), local, foreign, (11, 10)), Some(385));
    // 1 * 50 * 1 / 3 = 16.67, rounded up.
    assert_eq!(convert(U256::from_u64(1), local, foreign, (1, 3)), Some(17));
}

#[test]
fn convert_refuses_zero_local_price_and_overflow() {
    let one = Price { multiplier: 1, decimals: 0 };
    let zero = Price { multiplier: 0, decimals: 0 };
    assert_eq!(convert(U256::from_u64(5), zero, one, (1, 1)), None);
    // A foreign price of zero makes everything free.
    assert_eq!(convert(U256::from_u64(5), one, zero, (1, 1)), Some(0));
    // The result does not fit 128 bits.
    let wide = U256 { limbs: [0, 0, 1, 0] };
    assert_eq!(convert(wide, one, one, (1, 1)), None);
    // The numerator does not fit 256 bits.
    let top = U256 { limbs: [0, 0, 0, 1 << 63] };
    assert_eq!(convert(top, one, one, (2, 2)), None);
    // A power of ten that does not fit.
    let steep = Price { multiplier: 1, decimals: 200 };
    assert_eq!(convert(U256::from_u64(1), one, steep, (1, 1)), None);
    assert_eq!(convert(U256::from_u64(1), steep, one, (1, 1)), None);
    // A quantity of zero costs nothing, whatever the local power of ten.
    assert_eq!(convert(U256::from_u64(0), steep, one, (1, 1)), Some(0));
    // A fee rate without denominator gives no rate.
    assert_eq!(convert(U256::from_u64(5), one, one, (1, 0)), None);
}
