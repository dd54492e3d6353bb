//! 256-bit integers as the engine stores them: four 64-bit limbs, least
//! significant first. Multiplication, division, addition and exponentiation
//! are carried out by `ruint`, the big-integer arithmetic behind the SDK's
//! `U256`.

use vstd::arithmetic::power::pow;
use vstd::prelude::*;

verus! {

/// Two to the power 64, the weight of the second limb.
pub open spec fn limb_base() -> nat {
    0x1_0000_0000_0000_0000nat
}

/// Two to the power 256: unsigned 256-bit arithmetic wraps at this bound.
pub open spec fn modulus() -> nat {
    0x1_0000_0000_0000_0000_0000_0000_0000_0000_0000_0000_0000_0000_0000_0000_0000_0000nat
}

/// An unsigned 256-bit integer.
#[derive(Clone, Copy, Debug, PartialEq, Eq, Structural)]
pub struct U256 {
    pub l0: u64,
    pub l1: u64,
    pub l2: u64,
    pub l3: u64,
}

impl View for U256 {
    type V = nat;

    /// The number that the four limbs stand for.
    open spec fn view(&self) -> nat {
        (self.l0 as nat) + (self.l1 as nat) * 0x1_0000_0000_0000_0000nat + (self.l2 as nat)
            * 0x1_0000_0000_0000_0000_0000_0000_0000_0000nat + (self.l3 as nat)
            * 0x1_0000_0000_0000_0000_0000_0000_0000_0000_0000_0000_0000_0000nat
    }
}

impl U256 {
    /// The value zero.
    pub open spec fn spec_zero() -> U256 {
        U256 { l0: 0, l1: 0, l2: 0, l3: 0 }
    }

    /// The value zero.
    #[verifier::when_used_as_spec(spec_zero)]
    pub fn zero() -> (r: U256)
        ensures
            r == U256::spec_zero(),
            r@ == 0,
    {
        U256 { l0: 0, l1: 0, l2: 0, l3: 0 }
    }

    /// A 64-bit value, widened.
    pub open spec fn spec_from_u64(value: u64) -> U256 {
        U256 { l0: value, l1: 0, l2: 0, l3: 0 }
    }

    /// Widens a 64-bit value.
    #[verifier::when_used_as_spec(spec_from_u64)]
    pub fn from_u64(value: u64) -> (r: U256)
        ensures
            r == U256::spec_from_u64(value),
            r@ == value,
    {
        U256 { l0: value, l1: 0, l2: 0, l3: 0 }
    }

    /// Builds a value from its limbs, least significant first: each limb
    /// weighs the limb base times the one before it.
    pub fn from_limbs(limbs: [u64; 4]) -> (r: U256)
        ensures
            r == (U256 { l0: limbs[0], l1: limbs[1], l2: limbs[2], l3: limbs[3] }),
            r@ == limbs[0] + limb_base() * (limbs[1] + limb_base() * (limbs[2] + limb_base()
                * limbs[3])),
    {
        let r = U256 { l0: limbs[0], l1: limbs[1], l2: limbs[2], l3: limbs[3] };
        proof {
            lemma_limb_weights(r);
        }
        r
    }

    /// The limbs, least significant first.
    pub fn into_limbs(self) -> (r: [u64; 4])
        ensures
            r@ == seq![self.l0, self.l1, self.l2, self.l3],
    {
        [self.l0, self.l1, self.l2, self.l3]
    }

    /// Whether the value is zero.
    pub fn is_zero(&self) -> (r: bool)
        ensures
            r == (self@ == 0),
    {
        self.l0 == 0 && self.l1 == 0 && self.l2 == 0 && self.l3 == 0
    }
}

/// Every 256-bit value lies below the modulus.
pub proof fn lemma_u256_range(a: U256)
    ensures
        a@ < modulus(),
{
}

/// Each limb weighs the limb base times the one before it, the limb base is
/// one more than a limb can hold, and the modulus is the fourth power of the
/// limb base.
pub proof fn lemma_limb_weights(a: U256)
    ensures
        a@ == a.l0 + limb_base() * (a.l1 + limb_base() * (a.l2 + limb_base() * a.l3)),
        limb_base() == u64::MAX + 1,
        modulus() == limb_base() * limb_base() * limb_base() * limb_base(),
{
}

/// The product of two values, reduced modulo two to the power 256.
///
/// Calls `Mul::mul` of `ruint::Uint<256, 4>`, the SDK's `U256`, which is its
/// `wrapping_mul`. The limbs go in through `from_limbs` and come out through
/// `into_limbs`, least significant first both ways.
#[verifier::external_body]
pub(crate) fn wrapping_mul(a: U256, b: U256) -> (r: U256)
    ensures
        r@ == (a@ * b@) % modulus(),
{
    let x = stylus_sdk::alloy_primitives::U256::from_limbs([a.l0, a.l1, a.l2, a.l3]);
    let y = stylus_sdk::alloy_primitives::U256::from_limbs([b.l0, b.l1, b.l2, b.l3]);
    let l = (x * y).into_limbs();
    U256 { l0: l[0], l1: l[1], l2: l[2], l3: l[3] }
}

/// The sum of two values, reduced modulo two to the power 256.
///
/// Calls `Add::add` of `ruint::Uint<256, 4>`, which is its `wrapping_add`.
#[verifier::external_body]
pub(crate) fn wrapping_add(a: U256, b: U256) -> (r: U256)
    ensures
        r@ == (a@ + b@) % modulus(),
{
    let x = stylus_sdk::alloy_primitives::U256::from_limbs([a.l0, a.l1, a.l2, a.l3]);
    let y = stylus_sdk::alloy_primitives::U256::from_limbs([b.l0, b.l1, b.l2, b.l3]);
    let l = (x + y).into_limbs();
    U256 { l0: l[0], l1: l[1], l2: l[2], l3: l[3] }
}

/// The quotient of two values, rounded down.
///
/// Calls `Div::div` of `ruint::Uint<256, 4>`, which panics on a zero divisor;
/// the precondition keeps that divisor out.
#[verifier::external_body]
pub(crate) fn div(a: U256, b: U256) -> (r: U256)
    requires
        b@ != 0,
    ensures
        r@ == a@ / b@,
{
    let x = stylus_sdk::alloy_primitives::U256::from_limbs([a.l0, a.l1, a.l2, a.l3]);
    let y = stylus_sdk::alloy_primitives::U256::from_limbs([b.l0, b.l1, b.l2, b.l3]);
    let l = (x / y).into_limbs();
    U256 { l0: l[0], l1: l[1], l2: l[2], l3: l[3] }
}

/// A value raised to a power, reduced modulo two to the power 256.
///
/// Calls `Uint::pow` of `ruint::Uint<256, 4>`, which wraps around on
/// overflow.
#[verifier::external_body]
pub(crate) fn wrapping_pow(base: U256, exp: U256) -> (r: U256)
    ensures
        r@ == pow(base@ as int, exp@) % (modulus() as int),
{
    let x = stylus_sdk::alloy_primitives::U256::from_limbs([base.l0, base.l1, base.l2, base.l3]);
    let y = stylus_sdk::alloy_primitives::U256::from_limbs([exp.l0, exp.l1, exp.l2, exp.l3]);
    let l = x.pow(y).into_limbs();
    U256 { l0: l[0], l1: l[1], l2: l[2], l3: l[3] }
}

/// Ten to the power 18: the factor between a native amount with 18 decimals
/// and a whole unit, and the scale of the yield rates.
pub open spec fn scale() -> nat {
    1_000_000_000_000_000_000
}

/// Ten to the power 18, raised from ten.
pub fn scale_factor() -> (r: U256)
    ensures
        r@ == scale(),
{
    let r = wrapping_pow(U256::from_u64(10), U256::from_u64(18));
    proof {
        reveal_with_fuel(pow, 19);
        assert(pow(10, 18) == 1_000_000_000_000_000_000int);
    }
    r
}

/// A number of native units converted at a price, in whole units of the
/// price's scale: `amount * price / 10^18`, the product wrapping at 256 bits.
pub open spec fn scaled_value(amount: nat, price: nat) -> nat {
    ((amount * price) % modulus()) / scale()
}

/// Computes [`scaled_value`].
pub fn value_at(amount: U256, price: U256) -> (r: U256)
    ensures
        r@ == scaled_value(amount@, price@),
        r@ < sign_bound(),
{
    div(wrapping_mul(amount, price), scale_factor())
}

/// A signed 256-bit integer in two's complement, held as its bit pattern.
#[derive(Clone, Copy, Debug, PartialEq, Eq, Structural)]
pub struct I256 {
    pub bits: U256,
}

/// Two to the power 255: bit patterns from here on stand for negative numbers.
pub open spec fn sign_bound() -> nat {
    0x8000_0000_0000_0000_0000_0000_0000_0000_0000_0000_0000_0000_0000_0000_0000_0000nat
}

impl View for I256 {
    type V = int;

    /// The signed number that the bit pattern stands for.
    open spec fn view(&self) -> int {
        if self.bits@ >= sign_bound() {
            self.bits@ - modulus()
        } else {
            self.bits@ as int
        }
    }
}

/// The bit pattern of a signed number, read as an unsigned one: a negative
/// number comes out as its two's complement.
pub open spec fn unsigned(value: int) -> nat {
    if value < 0 {
        (value + modulus()) as nat
    } else {
        value as nat
    }
}

/// The bit pattern of a signed value is its number read as unsigned.
pub proof fn lemma_bits_of_signed(value: I256)
    ensures
        value.bits@ == unsigned(value@),
        -(sign_bound() as int) <= value@ < sign_bound(),
        2 * sign_bound() == modulus(),
{
    lemma_u256_range(value.bits);
}

impl I256 {
    /// Reads an unsigned value as a signed one, bit for bit: from two to the
    /// power 255 on the result is negative.
    pub fn from_raw(bits: U256) -> (r: I256)
        ensures
            r.bits == bits,
            bits@ < sign_bound() ==> r@ == bits@,
    {
        I256 { bits }
    }

    /// Reads this value as an unsigned one, bit for bit: a negative number
    /// comes out as its two's complement.
    pub fn into_raw(self) -> (r: U256)
        ensures
            r == self.bits,
            r@ == unsigned(self@),
    {
        proof {
            lemma_bits_of_signed(self);
        }
        self.bits
    }

    /// Whether the number is below zero.
    pub fn is_negative(&self) -> (r: bool)
        ensures
            r == (self@ < 0),
    {
        self.bits.l3 >= 0x8000_0000_0000_0000
    }
}

} // verus!
