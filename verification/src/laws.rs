//! Laws that relate the operations of `U128` to one another.

use vstd::prelude::*;
use vstd::std_specs::convert::FromSpec;
use vstd::std_specs::ops::AddSpec;
use vstd::std_specs::ops::SubSpec;
use crate::text::decimal_digits;
use crate::word_pair::U128;
use crate::word_pair::modulus;

verus! {

/// Every value is below 2^128, and its words are the base-2^64 digits of the
/// number it represents.
pub proof fn lemma_view_in_range(a: U128)
    ensures
        a@ < modulus(),
        U128::from_nat(a@) == a,
{
}

/// Every number below 2^128 is represented by the word pair made of its
/// base-2^64 digits.
pub proof fn lemma_from_nat_represents(n: nat)
    requires
        n < modulus(),
    ensures
        U128::from_nat(n)@ == n,
{
}

/// Two values that represent the same number have the same words.
pub proof fn lemma_view_injective(a: U128, b: U128)
    requires
        a@ == b@,
    ensures
        a == b,
{
}

/// Zero is the identity of addition on either side, and adding it never
/// overflows.
pub proof fn lemma_add_zero_identity(a: U128)
    ensures
        a.add_req(U128::zero()),
        a.add_spec(U128::zero()) == a,
        U128::zero().add_req(a),
        U128::zero().add_spec(a) == a,
{
}

/// Addition is commutative: if `a + b` does not overflow, neither does
/// `b + a`, and the two sums are the same value.
pub proof fn lemma_add_commutative(a: U128, b: U128)
    requires
        a.add_req(b),
    ensures
        b.add_req(a),
        a.add_spec(b) == b.add_spec(a),
{
}

/// Subtraction is undone by addition: whenever `a >= b`, the difference
/// `a - b` exists, adding `b` back does not overflow, and the result is `a`.
pub proof fn lemma_sub_then_add_restores(a: U128, b: U128)
    requires
        a@ >= b@,
    ensures
        a.sub_req(b),
        a.sub_spec(b).add_req(b),
        a.sub_spec(b).add_spec(b) == a,
{
    let difference = a.sub_spec(b);
    lemma_view_in_range(a);
    lemma_from_nat_represents((a@ - b@) as nat);
    assert(difference@ + b@ == a@);
}

/// Converting a native 128-bit value loses nothing: the converted value
/// represents the same number, and so is rendered by the same decimal numeral.
pub proof fn lemma_from_u128_round_trip(v: u128)
    ensures
        <U128 as FromSpec<u128>>::from_spec(v)@ == v,
        decimal_digits(<U128 as FromSpec<u128>>::from_spec(v)@) == decimal_digits(v as nat),
{
}

} // verus!
