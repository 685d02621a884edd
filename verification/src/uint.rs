//! Unsigned integers of 256 bits, held as four limbs of 64 bits.
//!
//! The arithmetic is done by `ethers_core::types::U256`; this module states
//! what each operation returns over the integer that the limbs stand for.

use vstd::prelude::*;

verus! {

/// Two to the power 64: the weight of the second limb.
pub open spec fn limb_base() -> int {
    0x1_0000_0000_0000_0000int
}

/// Two to the power 128: the first value that a `u128` cannot hold.
pub open spec fn u128_limit() -> int {
    0x1_0000_0000_0000_0000_0000_0000_0000_0000int
}

/// Two to the power 256: the first value that a `U256` cannot hold.
pub open spec fn u256_limit() -> int {
    0x1_0000_0000_0000_0000_0000_0000_0000_0000_0000_0000_0000_0000_0000_0000_0000_0000int
}

/// An unsigned integer below two to the power 256. The limbs are in
/// little-endian order: `limbs[0]` is the least significant.
#[derive(Clone, Copy, Debug)]
pub struct U256 {
    pub limbs: [u64; 4],
}

impl View for U256 {
    type V = int;

    /// The integer that the limbs stand for.
    open spec fn view(&self) -> int {
        self.limbs[0] as int + self.limbs[1] as int * limb_base() + self.limbs[2] as int
            * limb_base() * limb_base() + self.limbs[3] as int * limb_base() * limb_base()
            * limb_base()
    }
}

/// Calls `U256::from(u128)`, which puts the low and the high half of the
/// argument into the first two limbs and zero into the others.
#[verifier::external_body]
fn widen(value: u128) -> (wide: U256)
    ensures
        wide@ == value,
        wide.limbs[2] == 0,
        wide.limbs[3] == 0,
{
    U256 { limbs: ethers_core::types::U256::from(value).0 }
}

/// Calls `U256::checked_add`, which returns the sum, or `None` where the sum
/// does not fit 256 bits.
#[verifier::external_body]
fn add_limbs(a: U256, b: U256) -> (sum: Option<U256>)
    ensures
        sum is Some <==> a@ + b@ < u256_limit(),
        sum matches Some(s) ==> s@ == a@ + b@,
{
    match ethers_core::types::U256(a.limbs).checked_add(ethers_core::types::U256(b.limbs)) {
        Some(s) => Some(U256 { limbs: s.0 }),
        None => None,
    }
}

/// Calls `U256::checked_mul`, which returns the product, or `None` where the
/// product does not fit 256 bits.
#[verifier::external_body]
fn mul_limbs(a: U256, b: U256) -> (product: Option<U256>)
    ensures
        product is Some <==> a@ * b@ < u256_limit(),
        product matches Some(p) ==> p@ == a@ * b@,
{
    match ethers_core::types::U256(a.limbs).checked_mul(ethers_core::types::U256(b.limbs)) {
        Some(p) => Some(U256 { limbs: p.0 }),
        None => None,
    }
}

/// Calls `U256::div_mod`, which returns the quotient and the remainder and
/// panics on a divisor of zero.
#[verifier::external_body]
fn div_mod_limbs(a: U256, b: U256) -> (parts: (U256, U256))
    requires
        b@ != 0,
    ensures
        parts.0@ == a@ / b@,
        parts.1@ == a@ % b@,
{
    let (q, r) = ethers_core::types::U256(a.limbs).div_mod(ethers_core::types::U256(b.limbs));
    (U256 { limbs: q.0 }, U256 { limbs: r.0 })
}

/// Calls `U256::as_u128`, which returns the value of the first two limbs and
/// panics where one of the others is not zero.
#[verifier::external_body]
fn narrow(a: U256) -> (value: u128)
    requires
        a.limbs[2] == 0,
        a.limbs[3] == 0,
    ensures
        value == a@,
{
    ethers_core::types::U256(a.limbs).as_u128()
}

impl U256 {
    /// Zero.
    pub fn zero() -> (z: U256)
        ensures
            z@ == 0,
    {
        U256 { limbs: [0, 0, 0, 0] }
    }

    /// The value of a `u64`.
    pub fn from_u64(value: u64) -> (wide: U256)
        ensures
            wide@ == value,
    {
        U256 { limbs: [value, 0, 0, 0] }
    }

    /// The value of a `u128`.
    pub fn from_u128(value: u128) -> (wide: U256)
        ensures
            wide@ == value,
    {
        widen(value)
    }

    /// Every `U256` stands for an integer from zero up to, and not including,
    /// two to the power 256.
    pub proof fn lemma_range(self)
        ensures
            0 <= self@ < u256_limit(),
    {
        let b = limb_base();
        let l0 = self.limbs[0] as int;
        let l1 = self.limbs[1] as int;
        let l2 = self.limbs[2] as int;
        let l3 = self.limbs[3] as int;
        assert(l1 * b <= (b - 1) * b) by (nonlinear_arith)
            requires 0 <= l1 <= b - 1, b > 0;
        assert(l2 * b * b <= (b - 1) * b * b) by (nonlinear_arith)
            requires 0 <= l2 <= b - 1, b > 0;
        assert(l3 * b * b * b <= (b - 1) * b * b * b) by (nonlinear_arith)
            requires 0 <= l3 <= b - 1, b > 0;
        assert(0 <= l1 * b) by (nonlinear_arith)
            requires 0 <= l1, b > 0;
        assert(0 <= l2 * b * b) by (nonlinear_arith)
            requires 0 <= l2, b > 0;
        assert(0 <= l3 * b * b * b) by (nonlinear_arith)
            requires 0 <= l3, b > 0;
        assert(b * b * b * b == u256_limit()) by (nonlinear_arith)
            requires b == 0x1_0000_0000_0000_0000int, u256_limit() == 0x1_0000_0000_0000_0000_0000_0000_0000_0000_0000_0000_0000_0000_0000_0000_0000_0000int;
        assert((b - 1) * b + (b - 1) * b * b + (b - 1) * b * b * b + (b - 1) == b * b * b * b - 1)
            by (nonlinear_arith);
    }

    /// Whether the value is zero.
    pub fn is_zero(&self) -> (zero: bool)
        ensures
            zero == (self@ == 0),
    {
        proof {
            let b = limb_base();
            assert(0 <= self.limbs[1] as int * b) by (nonlinear_arith)
                requires 0 <= self.limbs[1] as int, b > 0;
            assert(0 <= self.limbs[2] as int * b * b) by (nonlinear_arith)
                requires 0 <= self.limbs[2] as int, b > 0;
            assert(0 <= self.limbs[3] as int * b * b * b) by (nonlinear_arith)
                requires 0 <= self.limbs[3] as int, b > 0;
            assert(self.limbs[1] > 0 ==> self.limbs[1] as int * b > 0) by (nonlinear_arith)
                requires 0 <= self.limbs[1] as int, b > 0;
            assert(self.limbs[2] > 0 ==> self.limbs[2] as int * b * b > 0) by (nonlinear_arith)
                requires 0 <= self.limbs[2] as int, b > 0;
            assert(self.limbs[3] > 0 ==> self.limbs[3] as int * b * b * b > 0) by (nonlinear_arith)
                requires 0 <= self.limbs[3] as int, b > 0;
        }
        self.limbs[0] == 0 && self.limbs[1] == 0 && self.limbs[2] == 0 && self.limbs[3] == 0
    }

    /// The sum, or `None` exactly where it does not fit 256 bits.
    pub fn checked_add(self, other: U256) -> (sum: Option<U256>)
        ensures
            sum is Some <==> self@ + other@ < u256_limit(),
            sum matches Some(s) ==> s@ == self@ + other@,
    {
        add_limbs(self, other)
    }

    /// The product, or `None` exactly where it does not fit 256 bits.
    pub fn checked_mul(self, other: U256) -> (product: Option<U256>)
        ensures
            product is Some <==> self@ * other@ < u256_limit(),
            product matches Some(p) ==> p@ == self@ * other@,
    {
        mul_limbs(self, other)
    }

    /// Quotient and remainder, or `None` exactly where the divisor is zero.
    pub fn checked_div_rem(self, divisor: U256) -> (parts: Option<(U256, U256)>)
        ensures
            parts is Some <==> divisor@ != 0,
            parts matches Some(p) ==> p.0@ == self@ / divisor@ && p.1@ == self@ % divisor@,
    {
        if divisor.is_zero() {
            None
        } else {
            Some(div_mod_limbs(self, divisor))
        }
    }

    /// The value as a `u128`, or `None` exactly where it does not fit.
    pub fn to_u128(&self) -> (value: Option<u128>)
        ensures
            value is Some <==> self@ < u128_limit(),
            value matches Some(v) ==> v == self@,
    {
        proof {
            let b = limb_base();
            assert(b * b == u128_limit()) by (nonlinear_arith)
                requires b == 0x1_0000_0000_0000_0000int, u128_limit() == 0x1_0000_0000_0000_0000_0000_0000_0000_0000int;
            assert(self.limbs[1] as int * b <= (b - 1) * b) by (nonlinear_arith)
                requires 0 <= self.limbs[1] as int <= b - 1, b > 0;
            assert(0 <= self.limbs[1] as int * b) by (nonlinear_arith)
                requires 0 <= self.limbs[1] as int, b > 0;
            assert(0 <= self.limbs[2] as int * b * b) by (nonlinear_arith)
                requires 0 <= self.limbs[2] as int, b > 0;
            assert(0 <= self.limbs[3] as int * b * b * b) by (nonlinear_arith)
                requires 0 <= self.limbs[3] as int, b > 0;
            assert(self.limbs[2] > 0 ==> self.limbs[2] as int * b * b >= b * b) by (nonlinear_arith)
                requires 0 <= self.limbs[2] as int, b > 0;
            assert(self.limbs[3] > 0 ==> self.limbs[3] as int * b * b * b >= b * b) by (nonlinear_arith)
                requires 0 <= self.limbs[3] as int, b >= 1;
        }
        if self.limbs[2] == 0 && self.limbs[3] == 0 {
            Some(narrow(*self))
        } else {
            None
        }
    }
}

} // verus!
