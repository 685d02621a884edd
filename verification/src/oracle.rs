//! Prices quoted by the price oracle, and the conversion of an amount of a
//! foreign asset into the local asset.

use vstd::prelude::*;
use crate::uint::{u128_limit, u256_limit, U256};

verus! {

/// A price as the oracle quotes it: `multiplier` divided by ten to the power
/// `decimals`.
#[derive(Clone, Copy, Debug, PartialEq, Eq, Structural)]
pub struct Price {
    pub multiplier: u128,
    pub decimals: u8,
}

/// What one entry of the oracle's answer stands for.
pub struct AssetPriceView {
    pub asset_id: Seq<char>,
    pub price: Option<Price>,
}

/// One entry of the oracle's answer: an asset and its price, if the oracle
/// has one.
#[derive(Debug)]
pub struct AssetPrice {
    pub asset_id: String,
    pub price: Option<Price>,
}

impl View for AssetPrice {
    type V = AssetPriceView;

    open spec fn view(&self) -> AssetPriceView {
        AssetPriceView { asset_id: self.asset_id@, price: self.price }
    }
}

/// The oracle's answer: prices by asset id.
#[derive(Debug)]
pub struct PriceData {
    pub prices: Vec<AssetPrice>,
}

impl View for PriceData {
    type V = Seq<AssetPriceView>;

    open spec fn view(&self) -> Seq<AssetPriceView> {
        Seq::new(self.prices@.len(), |i: int| self.prices@[i]@)
    }
}

/// The price that `prices` quotes for `asset_id`: that of the first entry
/// for the asset.
pub open spec fn quote(prices: Seq<AssetPriceView>, asset_id: Seq<char>) -> Option<Price>
    decreases prices.len(),
{
    if prices.len() == 0 {
        None
    } else if prices[0].asset_id == asset_id {
        prices[0].price
    } else {
        quote(prices.drop_first(), asset_id)
    }
}

/// Ten to the power `exponent`.
pub open spec fn pow10(exponent: nat) -> int
    decreases exponent,
{
    if exponent == 0 {
        1
    } else {
        10 * pow10((exponent - 1) as nat)
    }
}

/// `numerator` divided by `denominator`, rounded up.
pub open spec fn div_ceil(numerator: int, denominator: int) -> int {
    if numerator % denominator == 0 {
        numerator / denominator
    } else {
        numerator / denominator + 1
    }
}

/// The numerator of the conversion of `quantity` units of the foreign asset:
/// the quantity times the foreign price's multiplier, the local price's
/// power of ten and the fee rate's numerator.
pub open spec fn conversion_numerator(quantity: int, local: Price, foreign: Price, fee_rate: (u128, u128)) -> int {
    quantity * foreign.multiplier * pow10(local.decimals as nat) * fee_rate.0
}

/// The denominator of the conversion: the local price's multiplier times the
/// foreign price's power of ten and the fee rate's denominator.
pub open spec fn conversion_denominator(local: Price, foreign: Price, fee_rate: (u128, u128)) -> int {
    local.multiplier * pow10(foreign.decimals as nat) * fee_rate.1
}

/// What `quantity` units of the foreign asset cost in the local asset at the
/// given prices and fee rate, rounded up to a whole unit.
pub open spec fn converted(quantity: int, local: Price, foreign: Price, fee_rate: (u128, u128)) -> int {
    div_ceil(
        conversion_numerator(quantity, local, foreign, fee_rate),
        conversion_denominator(local, foreign, fee_rate),
    )
}

/// Whether the conversion can be computed in 256 bits and its result held in
/// 128.
pub open spec fn conversion_fits(quantity: int, local: Price, foreign: Price, fee_rate: (u128, u128)) -> bool {
    &&& conversion_numerator(quantity, local, foreign, fee_rate) < u256_limit()
    &&& conversion_denominator(local, foreign, fee_rate) < u256_limit()
    &&& converted(quantity, local, foreign, fee_rate) < u128_limit()
}

/// Powers of ten are positive and grow with the exponent.
pub proof fn lemma_pow10_grows(low: nat, high: nat)
    requires
        low <= high,
    ensures
        1 <= pow10(low) <= pow10(high),
    decreases high,
{
    if high == 0 {
    } else if low == high {
        lemma_pow10_grows((low - 1) as nat, (high - 1) as nat);
    } else {
        lemma_pow10_grows(low, (high - 1) as nat);
    }
}

impl PriceData {
    /// The price quoted for `asset_id`.
    pub fn price_of(&self, asset_id: &str) -> (price: Option<Price>)
        ensures
            price == quote(self@, asset_id@),
    {
        let mut i: usize = 0;
        assert(self@.subrange(0, self@.len() as int) =~= self@);
        while i < self.prices.len()
            invariant
                i <= self.prices.len(),
                quote(self@, asset_id@) == quote(self@.subrange(i as int, self@.len() as int), asset_id@),
            decreases self.prices.len() - i,
        {
            let ghost rest = self@.subrange(i as int, self@.len() as int);
            assert(rest[0] == self.prices[i as int]@);
            if str_equal(self.prices[i].asset_id.as_str(), asset_id) {
                return self.prices[i].price;
            }
            assert(rest.drop_first() =~= self@.subrange(i + 1, self@.len() as int));
            i += 1;
        }
        assert(self@.subrange(i as int, self@.len() as int).len() == 0);
        None
    }
}

/// Whether two texts are the same.
pub fn str_equal(a: &str, b: &str) -> (equal: bool)
    ensures
        equal == (a@ == b@),
{
    let x = a.to_owned();
    let y = b.to_owned();
    x == y
}

/// Ten to the power `exponent`, or `None` exactly where it does not fit 256
/// bits.
pub fn pow10_u256(exponent: u8) -> (power: Option<U256>)
    ensures
        power is Some <==> pow10(exponent as nat) < u256_limit(),
        power matches Some(p) ==> p@ == pow10(exponent as nat),
{
    let ten = U256::from_u64(10);
    let mut acc = U256::from_u64(1);
    let mut i: u8 = 0;
    while i < exponent
        invariant
            i <= exponent,
            acc@ == pow10(i as nat),
            ten@ == 10,
        decreases exponent - i,
    {
        match acc.checked_mul(ten) {
            Some(next) => {
                acc = next;
            },
            None => {
                proof {
                    assert(pow10((i + 1) as nat) == 10 * pow10(i as nat));
                    assert(acc@ * ten@ == 10 * pow10(i as nat)) by (nonlinear_arith)
                        requires acc@ == pow10(i as nat), ten@ == 10;
                    lemma_pow10_grows((i + 1) as nat, exponent as nat);
                }
                return None;
            },
        }
        proof {
            assert(acc@ == 10 * pow10(i as nat)) by (nonlinear_arith)
                requires acc@ == pow10(i as nat) * 10;
        }
        i += 1;
    }
    proof {
        acc.lemma_range();
    }
    Some(acc)
}

/// The product of four factors, or `None` exactly where it does not fit 256
/// bits.
pub fn product4(a: U256, b: U256, c: U256, d: U256) -> (product: Option<U256>)
    ensures
        product is Some <==> a@ * b@ * c@ * d@ < u256_limit(),
        product matches Some(p) ==> p@ == a@ * b@ * c@ * d@,
{
    proof {
        a.lemma_range();
        b.lemma_range();
        c.lemma_range();
        d.lemma_range();
    }
    if a.is_zero() || b.is_zero() || c.is_zero() || d.is_zero() {
        proof {
            assert(a@ * b@ * c@ * d@ == 0) by (nonlinear_arith)
                requires a@ == 0 || b@ == 0 || c@ == 0 || d@ == 0;
        }
        return Some(U256::zero());
    }
    let ghost limit = u256_limit();
    let ab = match a.checked_mul(b) {
        Some(p) => p,
        None => {
            proof {
                assert(a@ * b@ * c@ * d@ >= limit) by (nonlinear_arith)
                    requires a@ * b@ >= limit, c@ >= 1, d@ >= 1, limit > 0;
            }
            return None;
        },
    };
    let abc = match ab.checked_mul(c) {
        Some(p) => p,
        None => {
            proof {
                assert(a@ * b@ * c@ * d@ >= limit) by (nonlinear_arith)
                    requires a@ * b@ * c@ >= limit, d@ >= 1, limit > 0;
            }
            return None;
        },
    };
    abc.checked_mul(d)
}

/// Converts `quantity` units of the foreign asset into the local asset:
/// multiplies first, then divides, and rounds up. `None` where there is no
/// rate (the local multiplier or the fee rate's denominator is zero) or
/// where a step does not fit.
pub fn convert(quantity: U256, local: Price, foreign: Price, fee_rate: (u128, u128)) -> (cost: Option<u128>)
    ensures
        cost is Some <==> local.multiplier != 0 && fee_rate.1 != 0 && conversion_fits(
            quantity@,
            local,
            foreign,
            fee_rate,
        ),
        cost matches Some(c) ==> c == converted(quantity@, local, foreign, fee_rate),
{
    if local.multiplier == 0 || fee_rate.1 == 0 {
        return None;
    }
    let ghost numerator_value = conversion_numerator(quantity@, local, foreign, fee_rate);
    let ghost denominator_value = conversion_denominator(local, foreign, fee_rate);
    proof {
        quantity.lemma_range();
        lemma_pow10_grows(0, local.decimals as nat);
        lemma_pow10_grows(0, foreign.decimals as nat);
    }
    // The denominator has no factor zero, so each factor is at most the product.
    let foreign_scale = match pow10_u256(foreign.decimals) {
        Some(p) => p,
        None => {
            proof {
                let m = local.multiplier as int;
                let p = pow10(foreign.decimals as nat);
                let f = fee_rate.1 as int;
                assert(m * p * f >= p) by (nonlinear_arith)
                    requires m >= 1, p >= 1, f >= 1;
            }
            return None;
        },
    };
    let denominator = match product4(
        U256::from_u128(local.multiplier),
        foreign_scale,
        U256::from_u128(fee_rate.1),
        U256::from_u64(1),
    ) {
        Some(d) => d,
        None => {
            return None;
        },
    };
    proof {
        let m = local.multiplier as int;
        let p = pow10(foreign.decimals as nat);
        let f = fee_rate.1 as int;
        assert(m * p * f >= 1) by (nonlinear_arith)
            requires m >= 1, p >= 1, f >= 1;
        assert(m * p * f * 1 == m * p * f) by (nonlinear_arith);
    }
    let numerator = if quantity.is_zero() || foreign.multiplier == 0 || fee_rate.0 == 0 {
        proof {
            let q = quantity@;
            let m = foreign.multiplier as int;
            let p = pow10(local.decimals as nat);
            let f = fee_rate.0 as int;
            assert(q * m * p * f == 0) by (nonlinear_arith)
                requires q == 0 || m == 0 || f == 0;
        }
        U256::zero()
    } else {
        let local_scale = match pow10_u256(local.decimals) {
            Some(p) => p,
            None => {
                proof {
                    let q = quantity@;
                    let m = foreign.multiplier as int;
                    let p = pow10(local.decimals as nat);
                    let f = fee_rate.0 as int;
                    assert(q * m * p * f >= p) by (nonlinear_arith)
                        requires q >= 1, m >= 1, p >= 1, f >= 1;
                }
                return None;
            },
        };
        match product4(quantity, U256::from_u128(foreign.multiplier), local_scale, U256::from_u128(fee_rate.0)) {
            Some(n) => n,
            None => {
                return None;
            },
        }
    };
    assert(numerator@ == numerator_value);
    assert(denominator@ == denominator_value);
    let (quotient, remainder) = match numerator.checked_div_rem(denominator) {
        Some(parts) => parts,
        None => {
            return None;
        },
    };
    let rounded = if remainder.is_zero() {
        quotient
    } else {
        match quotient.checked_add(U256::from_u64(1)) {
            Some(r) => r,
            None => {
                proof {
                    quotient.lemma_range();
                }
                return None;
            },
        }
    };
    rounded.to_u128()
}

} // verus!
