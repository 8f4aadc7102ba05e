//! Multiplication from the four partial products of the operands' words.

use vstd::prelude::*;
use crate::word_pair::U128;
use crate::word_pair::lemma_split_wide;
use crate::word_pair::modulus;
use crate::word_pair::ArithmeticOverflow;

verus! {

/// The product of two word pairs, written out by partial products.
proof fn lemma_partial_products(ah: nat, al: nat, bh: nat, bl: nat)
    by (nonlinear_arith)
    ensures
        (ah * 0x1_0000_0000_0000_0000 + al) * (bh * 0x1_0000_0000_0000_0000 + bl) == (ah * bh)
            * 0x1_0000_0000_0000_0000_0000_0000_0000_0000nat + (al * bh + ah * bl)
            * 0x1_0000_0000_0000_0000 + al * bl,
{
}

/// A product of two words fits in a double word, and is zero only when a factor is.
proof fn lemma_word_product(a: u64, b: u64)
    by (nonlinear_arith)
    ensures
        a * b <= 0xffff_ffff_ffff_fffe_0000_0000_0000_0001,
        a * b == 0 <==> a == 0 || b == 0,
{
}

impl U128 {
    /// The exact product, or the overflow error when it does not fit in 128 bits.
    ///
    /// All four 64x64 partial products take part in the decision: the
    /// high-by-high product must vanish, and the two cross products together
    /// with the carry out of the low-by-low product must fit in the high word.
    pub fn checked_mul(self, rhs: U128) -> (r: Result<U128, ArithmeticOverflow>)
        ensures
            r is Ok <==> self@ * rhs@ < modulus(),
            r matches Ok(product) ==> product@ == self@ * rhs@,
    {
        proof {
            lemma_word_product(self.low, rhs.low);
            lemma_word_product(self.low, rhs.high);
            lemma_word_product(self.high, rhs.low);
            lemma_word_product(self.high, rhs.high);
            lemma_partial_products(
                self.high as nat,
                self.low as nat,
                rhs.high as nat,
                rhs.low as nat,
            );
        }
        let low_low: u128 = self.low as u128 * rhs.low as u128;
        let low_high: u128 = self.low as u128 * rhs.high as u128;
        let high_low: u128 = self.high as u128 * rhs.low as u128;
        let high_high: u128 = self.high as u128 * rhs.high as u128;
        if high_high != 0 {
            return Err(ArithmeticOverflow);
        }
        proof {
            lemma_split_wide(low_low);
        }
        let middle: u128 = low_high + high_low + (low_low >> 64);
        proof {
            lemma_split_wide(middle);
        }
        if (middle >> 64) != 0 {
            return Err(ArithmeticOverflow);
        }
        let high: u64 = #[verifier::truncate] (middle as u64);
        let low: u64 = #[verifier::truncate] (low_low as u64);
        Ok(U128 { high, low })
    }

    /// The high and low words of the exact product.
    ///
    /// A product that does not fit in 128 bits is excluded by the
    /// precondition; compiled code that is reached with such operands from
    /// outside verification stops instead of handing back a wrapped value.
    pub fn mulc(&self, other: &U128) -> (r: (u64, u64))
        requires
            self@ * other@ < modulus(),
        ensures
            (U128 { high: r.0, low: r.1 })@ == self@ * other@,
    {
        match self.checked_mul(*other) {
            Ok(product) => (product.high, product.low),
            Err(_) => vstd::pervasive::unreached(),
        }
    }
}

} // verus!
