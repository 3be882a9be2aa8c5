//! Positional notation: the digits of a natural number in a base from 2 to
//! 16, most significant first, and the number that a string of digits
//! denotes.

use vstd::prelude::*;
use vstd::arithmetic::div_mod::{lemma_div_decreases, lemma_fundamental_div_mod};

verus! {

/// The character that stands for the digit `d`: `0` to `9`, then `A` to `F`.
pub open spec fn digit_char(d: nat) -> char {
    seq!['0', '1', '2', '3', '4', '5', '6', '7', '8', '9', 'A', 'B', 'C', 'D', 'E', 'F'][d as int]
}

/// The digit that `c` stands for; 16 where `c` is no digit.
pub open spec fn digit_value(c: char) -> nat {
    if c == '0' {
        0
    } else if c == '1' {
        1
    } else if c == '2' {
        2
    } else if c == '3' {
        3
    } else if c == '4' {
        4
    } else if c == '5' {
        5
    } else if c == '6' {
        6
    } else if c == '7' {
        7
    } else if c == '8' {
        8
    } else if c == '9' {
        9
    } else if c == 'A' {
        10
    } else if c == 'B' {
        11
    } else if c == 'C' {
        12
    } else if c == 'D' {
        13
    } else if c == 'E' {
        14
    } else if c == 'F' {
        15
    } else {
        16
    }
}

/// `c` is a digit of the given base.
pub open spec fn is_digit(c: char, base: nat) -> bool {
    digit_value(c) < base && base <= 16
}

/// The digits of `n` in the given base, most significant first, without
/// leading zeros; the single digit `0` for zero.
pub open spec fn digits(n: nat, base: nat) -> Seq<char>
    decreases n,
    via digits_decreases
{
    if base < 2 || n < base {
        seq![digit_char(n)]
    } else {
        digits(n / base, base).push(digit_char(n % base))
    }
}

#[via_fn]
proof fn digits_decreases(n: nat, base: nat) {
    if !(base < 2 || n < base) {
        lemma_div_decreases(n as int, base as int);
    }
}

/// The number that a string of digits denotes in the given base.
pub open spec fn digits_value(s: Seq<char>, base: nat) -> nat
    decreases s.len(),
{
    if s.len() == 0 {
        0
    } else {
        digits_value(s.drop_last(), base) * base + digit_value(s.last())
    }
}

/// Each digit below 16 is read back from its character.
pub proof fn lemma_digit_char_value(d: nat)
    requires
        d < 16,
    ensures
        digit_value(digit_char(d)) == d,
{
}

/// The digits of a number are digits of the base, at least one of them, and
/// the first is `0` only for zero, which is written with one digit.
pub proof fn lemma_digits_shape(n: nat, base: nat)
    requires
        2 <= base <= 16,
    ensures
        digits(n, base).len() >= 1,
        forall|i: int| 0 <= i < digits(n, base).len() ==> is_digit(#[trigger] digits(n, base)[i], base),
        digits(n, base)[0] == '0' <==> n == 0,
        n == 0 ==> digits(n, base) == seq!['0'],
    decreases n,
{
    if n >= base {
        lemma_div_decreases(n as int, base as int);
        lemma_fundamental_div_mod(n as int, base as int);
        lemma_digits_shape(n / base, base);
    }
}

/// Reading the digits of a number gives the number back.
pub proof fn lemma_digits_value(n: nat, base: nat)
    requires
        2 <= base <= 16,
    ensures
        digits_value(digits(n, base), base) == n,
    decreases n,
{
    if n < base {
        let s = seq![digit_char(n)];
        lemma_digit_char_value(n);
        assert(digits_value(s.drop_last(), base) == 0);
        assert(digits_value(s, base) == 0 * base + n);
    } else {
        let q = n / base;
        let r = n % base;
        lemma_div_decreases(n as int, base as int);
        lemma_fundamental_div_mod(n as int, base as int);
        lemma_digits_value(q, base);
        lemma_digit_char_value(r);
        let s = digits(q, base).push(digit_char(r));
        assert(s.drop_last() == digits(q, base));
        assert(q * base == base * q) by (nonlinear_arith);
    }
}

/// Two numbers with the same digits are the same number.
pub proof fn lemma_digits_injective(m: nat, n: nat, base: nat)
    requires
        2 <= base <= 16,
        digits(m, base) == digits(n, base),
    ensures
        m == n,
{
    lemma_digits_value(m, base);
    lemma_digits_value(n, base);
}

} // verus!
