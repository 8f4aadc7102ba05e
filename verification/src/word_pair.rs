//! The two-word value type and the number it stands for.

use vstd::prelude::*;

verus! {

/// An unsigned 128-bit integer held as two 64-bit words.
///
/// Every pair of words is a valid value: the number represented is
/// `high * 2^64 + low`, and distinct pairs represent distinct numbers.
#[derive(Clone, Copy, PartialEq, Eq, Structural)]
pub struct U128 {
    /// Most-significant 64 bits.
    pub high: u64,
    /// Least-significant 64 bits.
    pub low: u64,
}

/// The single way arithmetic on [`U128`] fails: the exact result cannot be
/// represented in 128 bits (a sum or product of 2^128 or more, a negative
/// difference).
#[derive(Clone, Copy, Debug, PartialEq, Eq, Structural)]
pub struct ArithmeticOverflow;

/// 2^128, the first natural number that no `U128` represents.
pub open spec fn modulus() -> nat {
    0x1_0000_0000_0000_0000_0000_0000_0000_0000nat
}

impl View for U128 {
    type V = nat;

    /// The natural number that the two words represent.
    open spec fn view(&self) -> nat {
        self.high as nat * 0x1_0000_0000_0000_0000 + self.low as nat
    }
}

impl U128 {
    /// Numeric zero: both words clear.
    pub open spec fn zero() -> U128 {
        U128 { high: 0, low: 0 }
    }

    /// The value whose words are the base-2^64 digits of `n` (reduced modulo 2^128).
    pub open spec fn from_nat(n: nat) -> U128 {
        U128 {
            high: ((n / 0x1_0000_0000_0000_0000) % 0x1_0000_0000_0000_0000) as u64,
            low: (n % 0x1_0000_0000_0000_0000) as u64,
        }
    }
}

/// The low word of a double word, and the part above it.
pub(crate) proof fn lemma_split_wide(s: u128)
    ensures
        (s >> 64) == s / 0x1_0000_0000_0000_0000,
        (s as u64) == s % 0x1_0000_0000_0000_0000,
{
    assert(s >> 64 == s / 0x1_0000_0000_0000_0000) by (bit_vector);
    assert(s as u64 == s % 0x1_0000_0000_0000_0000) by (bit_vector);
}

impl Default for U128 {
    /// Numeric zero.
    fn default() -> (r: U128)
        ensures
            r == U128::zero(),
            r@ == 0,
    {
        U128 { high: 0, low: 0 }
    }
}

} // verus!
