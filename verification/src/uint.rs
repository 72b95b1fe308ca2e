//! 256-bit and 512-bit unsigned integers as little-endian arrays of 64-bit
//! words, with the natural number each one stands for.
//!
//! Comparison, widening and narrowing are done on the words and proved
//! against that number. Addition, subtraction, the full product and
//! division are done by the `ethers` crate's integers, behind four trusted
//! functions at the end of this file.

use vstd::arithmetic::power2::{lemma2_to64, lemma_pow2_adds, pow2};
use vstd::prelude::*;

verus! {

/// Two to the power 64: the weight of the second word.
pub open spec fn pow2_64() -> nat {
    0x1_0000_0000_0000_0000nat
}

/// Two to the power 128: the weight of the third word.
pub open spec fn pow2_128() -> nat {
    0x1_0000_0000_0000_0000_0000_0000_0000_0000nat
}

/// Two to the power 192: the weight of the fourth word.
pub open spec fn pow2_192() -> nat {
    0x1_0000_0000_0000_0000_0000_0000_0000_0000_0000_0000_0000_0000nat
}

/// Two to the power 256: the weight of the fifth word, and the first natural
/// number that a [`U256`] cannot hold.
pub open spec fn pow2_256() -> nat {
    0x1_0000_0000_0000_0000_0000_0000_0000_0000_0000_0000_0000_0000_0000_0000_0000_0000nat
}

/// Two to the power 320: the weight of the sixth word.
pub open spec fn pow2_320() -> nat {
    0x1_0000_0000_0000_0000_0000_0000_0000_0000_0000_0000_0000_0000_0000_0000_0000_0000_0000_0000_0000_0000nat
}

/// Two to the power 384: the weight of the seventh word.
pub open spec fn pow2_384() -> nat {
    0x1_0000_0000_0000_0000_0000_0000_0000_0000_0000_0000_0000_0000_0000_0000_0000_0000_0000_0000_0000_0000_0000_0000_0000_0000nat
}

/// Two to the power 448: the weight of the eighth word.
pub open spec fn pow2_448() -> nat {
    0x1_0000_0000_0000_0000_0000_0000_0000_0000_0000_0000_0000_0000_0000_0000_0000_0000_0000_0000_0000_0000_0000_0000_0000_0000_0000_0000_0000_0000nat
}

/// The weights are the powers of two that their names say.
pub proof fn lemma_word_weights()
    ensures
        pow2_64() == pow2(64),
        pow2_128() == pow2(128),
        pow2_192() == pow2(192),
        pow2_256() == pow2(256),
        pow2_320() == pow2(320),
        pow2_384() == pow2(384),
        pow2_448() == pow2(448),
{
    lemma2_to64();
    lemma_pow2_adds(64, 64);
    lemma_pow2_adds(128, 64);
    lemma_pow2_adds(192, 64);
    lemma_pow2_adds(256, 64);
    lemma_pow2_adds(320, 64);
    lemma_pow2_adds(384, 64);
}

/// The natural number that four little-endian 64-bit words stand for.
pub open spec fn words4_value(w: [u64; 4]) -> nat {
    w[0] as nat + w[1] as nat * pow2_64() + w[2] as nat * pow2_128() + w[3] as nat * pow2_192()
}

/// The natural number that eight little-endian 64-bit words stand for.
pub open spec fn words8_value(w: [u64; 8]) -> nat {
    w[0] as nat + w[1] as nat * pow2_64() + w[2] as nat * pow2_128() + w[3] as nat * pow2_192()
        + w[4] as nat * pow2_256() + w[5] as nat * pow2_320() + w[6] as nat * pow2_384() + w[7] as nat
        * pow2_448()
}

/// A 256-bit unsigned integer, least significant word first.
#[derive(Clone, Copy, Debug, PartialEq, Eq)]
pub struct U256 {
    pub limbs: [u64; 4],
}

/// A 512-bit unsigned integer, least significant word first. It holds the
/// full product of two [`U256`] values.
#[derive(Clone, Copy, Debug, PartialEq, Eq)]
pub struct U512 {
    pub limbs: [u64; 8],
}

impl View for U256 {
    type V = nat;

    open spec fn view(&self) -> nat {
        words4_value(self.limbs)
    }
}

impl View for U512 {
    type V = nat;

    open spec fn view(&self) -> nat {
        words8_value(self.limbs)
    }
}

impl U256 {
    /// The integer zero.
    pub fn zero() -> (r: U256)
        ensures
            r@ == 0,
    {
        U256 { limbs: [0, 0, 0, 0] }
    }

    /// The integer with the value of `value`.
    pub fn from_u64(value: u64) -> (r: U256)
        ensures
            r@ == value,
    {
        U256 { limbs: [value, 0, 0, 0] }
    }

    /// The integer with the value of `value`.
    pub fn from_u128(value: u128) -> (r: U256)
        ensures
            r@ == value,
    {
        let low: u64 = (value & 0xFFFF_FFFF_FFFF_FFFF) as u64;
        let high: u64 = (value >> 64) as u64;
        assert(value == (value & 0xFFFF_FFFF_FFFF_FFFF) + (value >> 64) * 0x1_0000_0000_0000_0000
            && (value & 0xFFFF_FFFF_FFFF_FFFF) <= 0xFFFF_FFFF_FFFF_FFFF && (value >> 64)
            <= 0xFFFF_FFFF_FFFF_FFFF) by (bit_vector);
        U256 { limbs: [low, high, 0, 0] }
    }

    /// Whether this integer is zero.
    pub fn is_zero(&self) -> (r: bool)
        ensures
            r == (self@ == 0),
    {
        self.limbs[0] == 0 && self.limbs[1] == 0 && self.limbs[2] == 0 && self.limbs[3] == 0
    }

    /// Whether this integer is strictly less than `other`.
    pub fn lt(&self, other: &U256) -> (r: bool)
        ensures
            r == (self@ < other@),
    {
        if self.limbs[3] != other.limbs[3] {
            self.limbs[3] < other.limbs[3]
        } else if self.limbs[2] != other.limbs[2] {
            self.limbs[2] < other.limbs[2]
        } else if self.limbs[1] != other.limbs[1] {
            self.limbs[1] < other.limbs[1]
        } else {
            self.limbs[0] < other.limbs[0]
        }
    }

    /// Two integers that stand for the same number have the same words.
    pub proof fn lemma_view_injective(self, other: U256)
        requires
            self@ == other@,
        ensures
            self == other,
    {
        // Word by word, from the most significant one down.
        assert(self.limbs[3] == other.limbs[3]);
        assert(self.limbs[2] == other.limbs[2]);
        assert(self.limbs[1] == other.limbs[1]);
        assert(self.limbs[0] == other.limbs[0]);
        assert(self.limbs =~= other.limbs);
    }
}

impl U512 {
    /// The 512-bit integer with the value of `value`.
    pub fn from_u256(value: U256) -> (r: U512)
        ensures
            r@ == value@,
    {
        U512 {
            limbs: [value.limbs[0], value.limbs[1], value.limbs[2], value.limbs[3], 0, 0, 0, 0],
        }
    }

    /// The same number as a 256-bit integer, or `None` where it takes more
    /// than 256 bits.
    pub fn to_u256(&self) -> (r: Option<U256>)
        ensures
            match r {
                Some(v) => v@ == self@,
                None => self@ >= pow2_256(),
            },
    {
        if self.limbs[4] == 0 && self.limbs[5] == 0 && self.limbs[6] == 0 && self.limbs[7] == 0 {
            Some(U256 { limbs: [self.limbs[0], self.limbs[1], self.limbs[2], self.limbs[3]] })
        } else {
            None
        }
    }
}

/// The sum `a + b`, or `None` where it takes more than 256 bits.
///
/// Trusted: the body calls `checked_add` of the `ethers` crate's 256-bit
/// integer, which adds word by word with carry and returns `None` when the
/// last carry is set. The contract claims that this is the exact sum
/// whenever the sum is below two to the power 256, and `None` otherwise.
#[verifier::external_body]
pub(crate) fn checked_add(a: U256, b: U256) -> (r: Option<U256>)
    ensures
        match r {
            Some(s) => s@ == a@ + b@,
            None => a@ + b@ >= pow2_256(),
        },
{
    match ethers::types::U256(a.limbs).checked_add(ethers::types::U256(b.limbs)) {
        Some(s) => Some(U256 { limbs: s.0 }),
        None => None,
    }
}

/// The difference `a - b`, or `None` where `b` is the larger.
///
/// Trusted: the body calls `checked_sub` of the `ethers` crate's 256-bit
/// integer, which subtracts word by word with borrow and returns `None`
/// when the last borrow is set. The contract claims that this is the exact
/// difference whenever `b <= a`, and `None` otherwise.
#[verifier::external_body]
pub(crate) fn checked_sub(a: U256, b: U256) -> (r: Option<U256>)
    ensures
        match r {
            Some(d) => a@ >= b@ && d@ == a@ - b@,
            None => a@ < b@,
        },
{
    match ethers::types::U256(a.limbs).checked_sub(ethers::types::U256(b.limbs)) {
        Some(d) => Some(U256 { limbs: d.0 }),
        None => None,
    }
}

/// The product `a * b` in full width.
///
/// Trusted: the body calls `full_mul` of the `ethers` crate's 256-bit
/// integer, documented to multiply two 256-bit integers into a 512-bit
/// integer without any overflow. The contract claims that the result is the
/// exact product.
#[verifier::external_body]
pub(crate) fn full_mul(a: U256, b: U256) -> (r: U512)
    ensures
        r@ == a@ * b@,
{
    let product = ethers::types::U256(a.limbs).full_mul(ethers::types::U256(b.limbs));
    U512 { limbs: product.0 }
}

/// The quotient `n / d` rounded toward zero, or `None` where `d` is zero.
///
/// Trusted: the body calls `checked_div` of the `ethers` crate's 512-bit
/// integer, documented to return `None` if the divisor is zero and the
/// quotient of the integer division otherwise. The contract claims exactly
/// that.
#[verifier::external_body]
pub(crate) fn checked_div(n: U512, d: U512) -> (r: Option<U512>)
    ensures
        match r {
            Some(q) => d@ != 0 && q@ == n@ / d@,
            None => d@ == 0,
        },
{
    match ethers::types::U512(n.limbs).checked_div(ethers::types::U512(d.limbs)) {
        Some(q) => Some(U512 { limbs: q.0 }),
        None => None,
    }
}

} // verus!
