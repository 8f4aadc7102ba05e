//! Conversions between `U128` and the native unsigned integers.

use vstd::prelude::*;
use vstd::std_specs::convert::FromSpecImpl;
use crate::word_pair::U128;
use crate::word_pair::lemma_split_wide;

verus! {

impl FromSpecImpl<u128> for U128 {
    open spec fn obeys_from_spec() -> bool {
        true
    }

    open spec fn from_spec(data: u128) -> U128 {
        U128 {
            high: (data / 0x1_0000_0000_0000_0000) as u64,
            low: (data % 0x1_0000_0000_0000_0000) as u64,
        }
    }
}

impl From<u128> for U128 {
    /// Splits a native 128-bit value into its upper and lower 64 bits.
    fn from(data: u128) -> (r: U128)
        ensures
            r@ == data,
    {
        proof {
            lemma_split_wide(data);
        }
        U128 { high: (data >> 64) as u64, low: #[verifier::truncate] (data as u64) }
    }
}

impl FromSpecImpl<u64> for U128 {
    open spec fn obeys_from_spec() -> bool {
        true
    }

    open spec fn from_spec(data: u64) -> U128 {
        U128 { high: 0, low: data }
    }
}

impl From<u64> for U128 {
    /// Zero-extends a 64-bit value.
    fn from(data: u64) -> (r: U128)
        ensures
            r.high == 0,
            r.low == data,
            r@ == data,
    {
        U128 { high: 0, low: data }
    }
}

impl FromSpecImpl<u32> for U128 {
    open spec fn obeys_from_spec() -> bool {
        true
    }

    open spec fn from_spec(data: u32) -> U128 {
        U128 { high: 0, low: data as u64 }
    }
}

impl From<u32> for U128 {
    /// Zero-extends a 32-bit value.
    fn from(data: u32) -> (r: U128)
        ensures
            r.high == 0,
            r.low == data,
            r@ == data,
    {
        U128 { high: 0, low: data as u64 }
    }
}

impl FromSpecImpl<u16> for U128 {
    open spec fn obeys_from_spec() -> bool {
        true
    }

    open spec fn from_spec(data: u16) -> U128 {
        U128 { high: 0, low: data as u64 }
    }
}

impl From<u16> for U128 {
    /// Zero-extends a 16-bit value.
    fn from(data: u16) -> (r: U128)
        ensures
            r.high == 0,
            r.low == data,
            r@ == data,
    {
        U128 { high: 0, low: data as u64 }
    }
}

impl FromSpecImpl<u8> for U128 {
    open spec fn obeys_from_spec() -> bool {
        true
    }

    open spec fn from_spec(data: u8) -> U128 {
        U128 { high: 0, low: data as u64 }
    }
}

impl From<u8> for U128 {
    /// Zero-extends an 8-bit value.
    fn from(data: u8) -> (r: U128)
        ensures
            r.high == 0,
            r.low == data,
            r@ == data,
    {
        U128 { high: 0, low: data as u64 }
    }
}

impl FromSpecImpl<usize> for U128 {
    open spec fn obeys_from_spec() -> bool {
        true
    }

    open spec fn from_spec(data: usize) -> U128 {
        U128 { high: 0, low: data as u64 }
    }
}

impl From<usize> for U128 {
    /// Zero-extends a pointer-sized value.
    fn from(data: usize) -> (r: U128)
        ensures
            r.high == 0,
            r.low == data,
            r@ == data,
    {
        U128 { high: 0, low: data as u64 }
    }
}

impl U128 {
    /// The represented number as a native 128-bit value.
    pub fn to_u128(self) -> (v: u128)
        ensures
            v == self@,
    {
        let high: u64 = self.high;
        let low: u64 = self.low;
        assert(((high as u128) << 64) | (low as u128) == high as u128 * 0x1_0000_0000_0000_0000
            + low as u128) by (bit_vector);
        ((high as u128) << 64) | (low as u128)
    }
}

} // verus!
