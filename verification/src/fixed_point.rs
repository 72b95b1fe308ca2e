//! Unsigned fixed-point numbers with 18 decimals: a 256-bit integer `n`
//! stands for the real number `n / 10^18`.
//!
//! Every operation is checked. It either returns the exact result,
//! rounded toward zero where a division is involved, or says why no
//! result exists.

use crate::uint::{checked_add, checked_div, checked_sub, full_mul, pow2_256, U256, U512};
use vstd::arithmetic::div_mod::lemma_div_is_ordered;
use vstd::prelude::*;

verus! {

/// The integer that stands for the number one: ten to the power 18.
pub const ONE_18: u64 = 1_000_000_000_000_000_000;

/// The integer that stands for the number one, as a natural number.
pub open spec fn one() -> nat {
    ONE_18 as nat
}

/// Why an operation has no result.
#[derive(Clone, Copy, Debug, PartialEq, Eq)]
pub enum ArithmeticError {
    /// The result does not fit in 256 bits.
    Overflow,
    /// A subtraction would go below zero.
    Underflow,
    /// The divisor is zero.
    DivisionByZero,
}

/// An unsigned fixed-point number with 18 decimals.
#[derive(Clone, Copy, Debug, PartialEq, Eq)]
pub struct FixedPoint {
    pub raw: U256,
}

impl View for FixedPoint {
    type V = nat;

    /// The underlying integer: the number times ten to the power 18.
    open spec fn view(&self) -> nat {
        self.raw@
    }
}

/// What a checked operation returned, with the number in place of its
/// representation.
pub open spec fn outcome(r: Result<FixedPoint, ArithmeticError>) -> Result<nat, ArithmeticError> {
    match r {
        Ok(v) => Ok(v@),
        Err(e) => Err(e),
    }
}

/// A natural number as the result of a checked operation: itself where it
/// fits in 256 bits, an overflow where it does not.
pub open spec fn fit(n: nat) -> Result<nat, ArithmeticError> {
    if n < pow2_256() {
        Ok(n)
    } else {
        Err(ArithmeticError::Overflow)
    }
}

/// `a * b / d`, rounded toward zero.
pub open spec fn mul_div_floor(a: nat, b: nat, d: nat) -> nat
    recommends
        d > 0,
{
    a * b / d
}

/// The fixed-point product of `a` and `b`, rounded toward zero.
pub open spec fn mul_floor(a: nat, b: nat) -> nat {
    mul_div_floor(a, b, one())
}

/// The fixed-point quotient of `a` by `b`, rounded toward zero.
pub open spec fn div_floor(a: nat, b: nat) -> nat
    recommends
        b > 0,
{
    mul_div_floor(a, one(), b)
}

/// Checked addition on natural numbers.
pub open spec fn spec_checked_add(a: nat, b: nat) -> Result<nat, ArithmeticError> {
    fit(a + b)
}

/// Checked subtraction on natural numbers.
pub open spec fn spec_checked_sub(a: nat, b: nat) -> Result<nat, ArithmeticError> {
    if a >= b {
        Ok((a - b) as nat)
    } else {
        Err(ArithmeticError::Underflow)
    }
}

/// Checked multiply-then-divide on natural numbers. A zero divisor is
/// reported before an overflow.
pub open spec fn spec_mul_div_down(a: nat, b: nat, d: nat) -> Result<nat, ArithmeticError> {
    if d == 0 {
        Err(ArithmeticError::DivisionByZero)
    } else {
        fit(mul_div_floor(a, b, d))
    }
}

/// Checked fixed-point multiplication on natural numbers.
pub open spec fn spec_checked_mul(a: nat, b: nat) -> Result<nat, ArithmeticError> {
    spec_mul_div_down(a, b, one())
}

/// Checked fixed-point division on natural numbers.
pub open spec fn spec_checked_div(a: nat, b: nat) -> Result<nat, ArithmeticError> {
    spec_mul_div_down(a, one(), b)
}

/// Multiplying by a fraction of at most one does not increase a number.
pub proof fn lemma_mul_floor_at_most(a: nat, b: nat)
    requires
        b <= one(),
    ensures
        mul_floor(a, b) <= a,
        mul_floor(b, a) <= a,
{
    assert(a * b / one() <= a && b * a / one() <= a) by (nonlinear_arith)
        requires
            b <= one(),
            one() > 0,
    ;
}

/// Multiply-then-divide, rounded toward zero, does not decrease when either
/// factor grows.
pub proof fn lemma_mul_div_floor_monotonic(a1: nat, a2: nat, b: nat, d: nat)
    requires
        a1 <= a2,
        d > 0,
    ensures
        mul_div_floor(a1, b, d) <= mul_div_floor(a2, b, d),
        mul_div_floor(b, a1, d) <= mul_div_floor(b, a2, d),
{
    assert(a1 * b <= a2 * b && b * a1 <= b * a2) by (nonlinear_arith)
        requires
            a1 <= a2,
    ;
    lemma_div_is_ordered((a1 * b) as int, (a2 * b) as int, d as int);
    lemma_div_is_ordered((b * a1) as int, (b * a2) as int, d as int);
}

/// Multiply-then-divide of zero, or by zero, is zero.
pub proof fn lemma_mul_div_floor_zero(a: nat, d: nat)
    requires
        d > 0,
    ensures
        mul_div_floor(a, 0, d) == 0,
        mul_div_floor(0, a, d) == 0,
{
    assert(a * 0 == 0 && 0 * a == 0) by (nonlinear_arith);
    assert(0nat / d == 0) by (nonlinear_arith)
        requires
            d > 0,
    ;
}

/// A checked operation with a given outcome has one possible result, down
/// to the last bit: two results that stand for the same outcome are equal.
pub proof fn lemma_outcome_determines_result(
    first: Result<FixedPoint, ArithmeticError>,
    second: Result<FixedPoint, ArithmeticError>,
)
    requires
        outcome(first) == outcome(second),
    ensures
        first == second,
{
    if let Ok(a) = first {
        if let Ok(b) = second {
            a.raw.lemma_view_injective(b.raw);
        }
    }
}

impl FixedPoint {
    /// The fixed-point number whose underlying integer is `raw`.
    pub fn new(raw: U256) -> (r: FixedPoint)
        ensures
            r@ == raw@,
            r.raw == raw,
    {
        FixedPoint { raw }
    }

    /// The fixed-point number whose underlying integer is `value`.
    pub fn from_u128(value: u128) -> (r: FixedPoint)
        ensures
            r@ == value,
    {
        FixedPoint { raw: U256::from_u128(value) }
    }

    /// The number zero.
    pub fn zero() -> (r: FixedPoint)
        ensures
            r@ == 0,
    {
        FixedPoint { raw: U256::zero() }
    }

    /// The number one.
    pub fn one() -> (r: FixedPoint)
        ensures
            r@ == one(),
    {
        FixedPoint { raw: U256::from_u64(ONE_18) }
    }

    /// The sum `self + other`, or an overflow where it does not fit in 256
    /// bits.
    pub fn checked_add(self, other: FixedPoint) -> (r: Result<FixedPoint, ArithmeticError>)
        ensures
            outcome(r) == spec_checked_add(self@, other@),
    {
        match checked_add(self.raw, other.raw) {
            Some(s) => Ok(FixedPoint { raw: s }),
            None => Err(ArithmeticError::Overflow),
        }
    }

    /// The difference `self - other`, or an underflow where `other` is the
    /// larger.
    pub fn checked_sub(self, other: FixedPoint) -> (r: Result<FixedPoint, ArithmeticError>)
        ensures
            outcome(r) == spec_checked_sub(self@, other@),
    {
        match checked_sub(self.raw, other.raw) {
            Some(d) => Ok(FixedPoint { raw: d }),
            None => Err(ArithmeticError::Underflow),
        }
    }

    /// `self * other / divisor`, rounded toward zero. The product is taken
    /// in full width, so only a quotient that does not fit in 256 bits is
    /// an overflow.
    pub fn mul_div_down(self, other: FixedPoint, divisor: FixedPoint) -> (r: Result<
        FixedPoint,
        ArithmeticError,
    >)
        ensures
            outcome(r) == spec_mul_div_down(self@, other@, divisor@),
    {
        let product: U512 = full_mul(self.raw, other.raw);
        match checked_div(product, U512::from_u256(divisor.raw)) {
            None => Err(ArithmeticError::DivisionByZero),
            Some(quotient) => match quotient.to_u256() {
                Some(q) => Ok(FixedPoint { raw: q }),
                None => Err(ArithmeticError::Overflow),
            },
        }
    }

    /// The fixed-point product `self * other`, rounded toward zero.
    pub fn checked_mul(self, other: FixedPoint) -> (r: Result<FixedPoint, ArithmeticError>)
        ensures
            outcome(r) == spec_checked_mul(self@, other@),
    {
        self.mul_div_down(other, FixedPoint::one())
    }

    /// The fixed-point quotient `self / other`, rounded toward zero.
    pub fn checked_div(self, other: FixedPoint) -> (r: Result<FixedPoint, ArithmeticError>)
        ensures
            outcome(r) == spec_checked_div(self@, other@),
    {
        self.mul_div_down(FixedPoint::one(), other)
    }
}

} // verus!
