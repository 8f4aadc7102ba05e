//! The operators `+`, `-` and `*` on `U128`.
//!
//! Each operator asks of its operands that the exact result fits in 128
//! bits, and then returns exactly that result. Code that cannot show this
//! beforehand uses the `checked_` functions instead.

use vstd::prelude::*;
use vstd::std_specs::ops::AddSpecImpl;
use vstd::std_specs::ops::MulSpecImpl;
use vstd::std_specs::ops::SubSpecImpl;
use crate::word_pair::U128;
use crate::word_pair::modulus;

verus! {

impl AddSpecImpl for U128 {
    open spec fn obeys_add_spec() -> bool {
        true
    }

    open spec fn add_req(self, rhs: U128) -> bool {
        self@ + rhs@ < modulus()
    }

    open spec fn add_spec(self, rhs: U128) -> U128 {
        U128::from_nat(self@ + rhs@)
    }
}

impl std::ops::Add for U128 {
    type Output = U128;

    /// The exact sum of two values whose sum fits in 128 bits.
    fn add(self, other: U128) -> (r: U128)
        ensures
            r@ == self@ + other@,
    {
        let (high, low) = self.addc(&other);
        U128 { high, low }
    }
}

impl SubSpecImpl for U128 {
    open spec fn obeys_sub_spec() -> bool {
        true
    }

    open spec fn sub_req(self, rhs: U128) -> bool {
        self@ >= rhs@
    }

    open spec fn sub_spec(self, rhs: U128) -> U128 {
        U128::from_nat((self@ - rhs@) as nat)
    }
}

impl std::ops::Sub for U128 {
    type Output = U128;

    /// The exact difference of two values of which the first is not the smaller.
    fn sub(self, other: U128) -> (r: U128)
        ensures
            r@ == self@ - other@,
    {
        let (high, low) = self.subc(&other);
        U128 { high, low }
    }
}

impl MulSpecImpl for U128 {
    open spec fn obeys_mul_spec() -> bool {
        true
    }

    open spec fn mul_req(self, rhs: U128) -> bool {
        self@ * rhs@ < modulus()
    }

    open spec fn mul_spec(self, rhs: U128) -> U128 {
        U128::from_nat(self@ * rhs@)
    }
}

impl std::ops::Mul for U128 {
    type Output = U128;

    /// The exact product of two values whose product fits in 128 bits.
    fn mul(self, other: U128) -> (r: U128)
        ensures
            r@ == self@ * other@,
    {
        let (high, low) = self.mulc(&other);
        U128 { high, low }
    }
}

} // verus!
