//! Textual renderings: the decimal digits of the value, and a diagnostic dump
//! of the two words in binary.

use vstd::prelude::*;
use vstd::string::*;
use crate::word_pair::U128;

verus! {

/// The character that writes the digit `d`, for `d` below ten.
pub open spec fn digit_char(d: nat) -> char {
    if d == 0 {
        '0'
    } else if d == 1 {
        '1'
    } else if d == 2 {
        '2'
    } else if d == 3 {
        '3'
    } else if d == 4 {
        '4'
    } else if d == 5 {
        '5'
    } else if d == 6 {
        '6'
    } else if d == 7 {
        '7'
    } else if d == 8 {
        '8'
    } else {
        '9'
    }
}

/// The decimal numeral of `n`: most significant digit first, no sign, no
/// separators, and no leading zero except for the numeral "0" itself.
pub open spec fn decimal_digits(n: nat) -> Seq<char>
    decreases n,
{
    if n < 10 {
        seq![digit_char(n)]
    } else {
        decimal_digits(n / 10).push(digit_char(n % 10))
    }
}

/// The binary numeral of `n`: most significant bit first, no prefix, and no
/// leading zero except for the numeral "0" itself.
pub open spec fn binary_digits(n: nat) -> Seq<char>
    decreases n,
{
    if n < 2 {
        seq![digit_char(n)]
    } else {
        binary_digits(n / 2).push(digit_char(n % 2))
    }
}

/// The diagnostic dump of a value: `U128(<high> <low>)`, each word in binary.
pub open spec fn debug_text(value: U128) -> Seq<char> {
    seq!['U', '1', '2', '8', '('] + binary_digits(value.high as nat) + seq![' '] + binary_digits(
        value.low as nat,
    ) + seq![')']
}

/// The digit that a character writes; zero for any other character.
pub open spec fn digit_value(c: char) -> nat {
    if c == '1' {
        1
    } else if c == '2' {
        2
    } else if c == '3' {
        3
    } else if c == '4' {
        4
    } else if c == '5' {
        5
    } else if c == '6' {
        6
    } else if c == '7' {
        7
    } else if c == '8' {
        8
    } else if c == '9' {
        9
    } else {
        0
    }
}

/// Whether `c` writes a digit below `radix`.
pub open spec fn is_digit(c: char, radix: nat) -> bool {
    digit_value(c) < radix && c == digit_char(digit_value(c))
}

/// The number that a numeral denotes in the given radix, most significant
/// digit first.
pub open spec fn numeral_value(s: Seq<char>, radix: nat) -> nat
    decreases s.len(),
{
    if s.len() == 0 {
        0
    } else {
        numeral_value(s.drop_last(), radix) * radix + digit_value(s.last())
    }
}

/// The decimal numeral of a number is canonical: it is not empty, consists of
/// decimal digits only, starts with '0' only when the number is zero, and
/// denotes the number.
pub proof fn lemma_decimal_digits_canonical(n: nat)
    ensures
        decimal_digits(n).len() >= 1,
        forall|i: int|
            0 <= i < decimal_digits(n).len() ==> is_digit(#[trigger] decimal_digits(n)[i], 10),
        decimal_digits(n)[0] == '0' <==> n == 0,
        numeral_value(decimal_digits(n), 10) == n,
    decreases n,
{
    let s = decimal_digits(n);
    if n < 10 {
        assert(s.drop_last() =~= Seq::<char>::empty());
        assert(numeral_value(s.drop_last(), 10) == 0);
        assert(s[0] == digit_char(n));
    } else {
        let head = decimal_digits(n / 10);
        lemma_decimal_digits_canonical(n / 10);
        assert(s.drop_last() =~= head);
        assert(s.last() == digit_char(n % 10));
        assert(s[0] == head[0]);
        assert forall|i: int| 0 <= i < s.len() implies is_digit(#[trigger] s[i], 10) by {
            if i < head.len() {
                assert(s[i] == head[i]);
            } else {
                assert(s[i] == digit_char(n % 10));
            }
        }
    }
}

/// The binary numeral of a number is canonical: it is not empty, consists of
/// the digits '0' and '1' only, starts with '0' only when the number is
/// zero, and denotes the number.
pub proof fn lemma_binary_digits_canonical(n: nat)
    ensures
        binary_digits(n).len() >= 1,
        forall|i: int|
            0 <= i < binary_digits(n).len() ==> is_digit(#[trigger] binary_digits(n)[i], 2),
        binary_digits(n)[0] == '0' <==> n == 0,
        numeral_value(binary_digits(n), 2) == n,
    decreases n,
{
    let s = binary_digits(n);
    if n < 2 {
        assert(s.drop_last() =~= Seq::<char>::empty());
        assert(numeral_value(s.drop_last(), 2) == 0);
        assert(s[0] == digit_char(n));
    } else {
        let head = binary_digits(n / 2);
        lemma_binary_digits_canonical(n / 2);
        assert(s.drop_last() =~= head);
        assert(s.last() == digit_char(n % 2));
        assert(s[0] == head[0]);
        assert forall|i: int| 0 <= i < s.len() implies is_digit(#[trigger] s[i], 2) by {
            if i < head.len() {
                assert(s[i] == head[i]);
            } else {
                assert(s[i] == digit_char(n % 2));
            }
        }
    }
}

/// The one-character string for a digit.
fn digit_str(d: u8) -> (s: &'static str)
    requires
        d < 10,
    ensures
        s@ == seq![digit_char(d as nat)],
{
    proof {
        reveal_strlit("0");
        reveal_strlit("1");
        reveal_strlit("2");
        reveal_strlit("3");
        reveal_strlit("4");
        reveal_strlit("5");
        reveal_strlit("6");
        reveal_strlit("7");
        reveal_strlit("8");
        reveal_strlit("9");
    }
    let s: &'static str = if d == 0 {
        "0"
    } else if d == 1 {
        "1"
    } else if d == 2 {
        "2"
    } else if d == 3 {
        "3"
    } else if d == 4 {
        "4"
    } else if d == 5 {
        "5"
    } else if d == 6 {
        "6"
    } else if d == 7 {
        "7"
    } else if d == 8 {
        "8"
    } else {
        "9"
    };
    s
}

/// Appends the decimal numeral of `v` to `out`.
fn push_decimal(out: &mut String, v: u128)
    ensures
        final(out)@ == old(out)@ + decimal_digits(v as nat),
    decreases v,
{
    if v >= 10 {
        push_decimal(out, v / 10);
    }
    out.append(digit_str((v % 10) as u8));
}

/// Appends the binary numeral of `v` to `out`.
fn push_binary(out: &mut String, v: u64)
    ensures
        final(out)@ == old(out)@ + binary_digits(v as nat),
    decreases v,
{
    if v >= 2 {
        push_binary(out, v / 2);
    }
    out.append(digit_str((v % 2) as u8));
}

impl U128 {
    /// The value in decimal.
    pub fn to_string(&self) -> (s: String)
        ensures
            s@ == decimal_digits(self@),
    {
        let mut s = String::new();
        push_decimal(&mut s, self.to_u128());
        s
    }

    /// The two words in binary, for diagnostics.
    pub fn to_debug_string(&self) -> (s: String)
        ensures
            s@ == debug_text(*self),
    {
        proof {
            reveal_strlit("U128(");
            reveal_strlit(" ");
            reveal_strlit(")");
        }
        let mut s = String::from_str("U128(");
        push_binary(&mut s, self.high);
        s.append(" ");
        push_binary(&mut s, self.low);
        s.append(")");
        s
    }
}

} // verus!
