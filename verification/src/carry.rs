//! Addition and subtraction by word-level carry and borrow propagation.

use vstd::prelude::*;
use crate::word_pair::U128;
use crate::word_pair::lemma_split_wide;
use crate::word_pair::modulus;
use crate::word_pair::ArithmeticOverflow;

verus! {

impl U128 {
    /// Adds with a carry chain and reports the carry out of the high word.
    ///
    /// The low words are added first; their carry-out enters the addition of
    /// the high words. The returned value is the sum reduced modulo 2^128 and
    /// the flag is set exactly when the true sum does not fit in 128 bits.
    pub fn overflowing_add(self, rhs: U128) -> (r: (U128, bool))
        ensures
            r.0@ + (if r.1 { modulus() } else { 0 }) == self@ + rhs@,
            r.1 <==> self@ + rhs@ >= modulus(),
    {
        let low_sum: u128 = self.low as u128 + rhs.low as u128;
        let low: u64 = #[verifier::truncate] (low_sum as u64);
        let carry: u128 = low_sum >> 64;
        proof {
            lemma_split_wide(low_sum);
        }
        let high_sum: u128 = self.high as u128 + rhs.high as u128 + carry;
        let high: u64 = #[verifier::truncate] (high_sum as u64);
        let overflow: bool = (high_sum >> 64) != 0;
        proof {
            lemma_split_wide(high_sum);
        }
        (U128 { high, low }, overflow)
    }

    /// Subtracts with a borrow chain and reports the borrow out of the high word.
    ///
    /// The low words are subtracted first; their borrow-out enters the
    /// subtraction of the high words. The returned value is the difference
    /// reduced modulo 2^128 and the flag is set exactly when `self < rhs`.
    pub fn overflowing_sub(self, rhs: U128) -> (r: (U128, bool))
        ensures
            r.0@ - (if r.1 { modulus() } else { 0 }) == self@ - rhs@,
            r.1 <==> self@ < rhs@,
    {
        let low_diff: u128 = (0x1_0000_0000_0000_0000u128 + self.low as u128) - rhs.low as u128;
        proof {
            lemma_split_wide(low_diff);
        }
        let low: u64 = #[verifier::truncate] (low_diff as u64);
        let borrow: u128 = 1 - (low_diff >> 64);
        let high_diff: u128 = (0x1_0000_0000_0000_0000u128 + self.high as u128) - rhs.high as u128
            - borrow;
        let high: u64 = #[verifier::truncate] (high_diff as u64);
        let underflow: bool = (high_diff >> 64) == 0;
        proof {
            lemma_split_wide(high_diff);
        }
        (U128 { high, low }, underflow)
    }

    /// The exact sum, or the overflow error when it does not fit in 128 bits.
    pub fn checked_add(self, rhs: U128) -> (r: Result<U128, ArithmeticOverflow>)
        ensures
            r is Ok <==> self@ + rhs@ < modulus(),
            r matches Ok(sum) ==> sum@ == self@ + rhs@,
    {
        let (sum, overflow) = self.overflowing_add(rhs);
        if overflow {
            Err(ArithmeticOverflow)
        } else {
            Ok(sum)
        }
    }

    /// The exact difference, or the overflow error when `self < rhs`.
    pub fn checked_sub(self, rhs: U128) -> (r: Result<U128, ArithmeticOverflow>)
        ensures
            r is Ok <==> self@ >= rhs@,
            r matches Ok(difference) ==> difference@ == self@ - rhs@,
    {
        let (difference, underflow) = self.overflowing_sub(rhs);
        if underflow {
            Err(ArithmeticOverflow)
        } else {
            Ok(difference)
        }
    }

    /// The high and low words of the exact sum.
    ///
    /// A sum that does not fit in 128 bits is excluded by the precondition;
    /// compiled code that is reached with such operands from outside
    /// verification stops instead of handing back a wrapped value.
    pub fn addc(&self, other: &U128) -> (r: (u64, u64))
        requires
            self@ + other@ < modulus(),
        ensures
            (U128 { high: r.0, low: r.1 })@ == self@ + other@,
    {
        match self.checked_add(*other) {
            Ok(sum) => (sum.high, sum.low),
            Err(_) => vstd::pervasive::unreached(),
        }
    }

    /// The high and low words of the exact difference.
    ///
    /// A negative difference is excluded by the precondition; compiled code
    /// that is reached with such operands from outside verification stops
    /// instead of handing back a wrapped value.
    pub fn subc(&self, other: &U128) -> (r: (u64, u64))
        requires
            self@ >= other@,
        ensures
            (U128 { high: r.0, low: r.1 })@ == self@ - other@,
    {
        match self.checked_sub(*other) {
            Ok(difference) => (difference.high, difference.low),
            Err(_) => vstd::pervasive::unreached(),
        }
    }
}

} // verus!
