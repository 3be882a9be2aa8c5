//! 256-bit unsigned integers as four 64-bit limbs, and the two ways a query
//! writes them: `0x` and upper-case hexadecimal for addresses and hashes,
//! plain decimal for counts, block numbers and timestamps.

use vstd::prelude::*;
use vstd::string::StringExecFns;
use crate::digits::{digits, digits_value, is_digit, lemma_digits_shape, lemma_digits_value};

verus! {

/// The weight of one limb over the limb below it: 2 to the 64th.
pub open spec fn limb_base() -> nat {
    0x1_0000_0000_0000_0000
}

/// The number that four limbs stand for, the least significant first.
pub open spec fn limbs_value(limbs: [u64; 4]) -> nat {
    ((limbs[3] as nat * limb_base() + limbs[2] as nat) * limb_base() + limbs[1] as nat)
        * limb_base() + limbs[0] as nat
}

/// A 256-bit unsigned integer. The limbs are in little-endian order, as in
/// `web3::types::U256`, so a value of that type converts limb for limb.
#[derive(Clone, Copy, Debug, PartialEq, Eq)]
pub struct Uint256(pub [u64; 4]);

impl View for Uint256 {
    type V = nat;

    open spec fn view(&self) -> nat {
        limbs_value(self.0)
    }
}

/// An address or a hash as a query writes it: `0x`, then the hexadecimal
/// digits in upper case.
pub open spec fn hex_text(n: nat) -> Seq<char> {
    "0x"@ + digits(n, 16)
}

/// A count, a block number or a timestamp as a query writes it: the decimal
/// digits.
pub open spec fn decimal_text(n: nat) -> Seq<char> {
    digits(n, 10)
}

/// The hexadecimal digits of `x`, through the `UpperHex` formatting of
/// `web3::types::U256`. That formatting walks the limbs from the most
/// significant one, nibble by nibble, skips the leading zero nibbles and
/// writes each remaining one as `0`-`9` or `A`-`F`; zero is written `0`.
/// Without the `#` flag it adds no prefix. The contract claims exactly
/// that: the result is the base-16 notation of the value of the limbs.
#[verifier::external_body]
fn format_upper_hex(x: &Uint256) -> (s: String)
    ensures
        s@ == digits(x@, 16),
{
    format!("{:X}", web3::types::U256(x.0))
}

/// The decimal digits of `x`, through the `Display` formatting of
/// `web3::types::U256`. That formatting divides by ten until nothing is
/// left and writes the remainders, last first; zero is written `0`. The
/// contract claims exactly that: the result is the base-10 notation of the
/// value of the limbs.
#[verifier::external_body]
fn format_decimal(x: &Uint256) -> (s: String)
    ensures
        s@ == digits(x@, 10),
{
    format!("{}", web3::types::U256(x.0))
}

impl Uint256 {
    /// The integer with the value of `x`.
    pub fn from_u64(x: u64) -> (r: Self)
        ensures
            r@ == x,
            r.0@ == seq![x, 0u64, 0u64, 0u64],
    {
        Uint256([x, 0, 0, 0])
    }

    /// This integer as an address or a hash is written in a query.
    pub fn to_hex_text(&self) -> (s: String)
        ensures
            s@ == hex_text(self@),
    {
        let mut s = String::from_str("0x");
        let d = format_upper_hex(self);
        s.append(d.as_str());
        s
    }

    /// This integer as a count, a block number or a timestamp is written in
    /// a query.
    pub fn to_decimal_text(&self) -> (s: String)
        ensures
            s@ == decimal_text(self@),
    {
        format_decimal(self)
    }
}

/// The value of an integer is below 2 to the 256th.
pub proof fn lemma_value_bound(x: Uint256)
    ensures
        x@ < limb_base() * limb_base() * limb_base() * limb_base(),
{
}

/// Two integers with the same value have the same limbs.
pub proof fn lemma_value_injective(x: Uint256, y: Uint256)
    requires
        x@ == y@,
    ensures
        x.0@ == y.0@,
{
    assert(x.0@ =~= y.0@);
}

/// An address or a hash is written as `0x` and then digits that are all of
/// `0`-`9` and `A`-`F`, so that no second `x` follows; the first digit is
/// `0` only for zero; and the digits read back as the number.
pub proof fn lemma_hex_text(n: nat)
    ensures
        hex_text(n).len() >= 3,
        hex_text(n)[0] == '0',
        hex_text(n)[1] == 'x',
        hex_text(n).subrange(2, hex_text(n).len() as int) == digits(n, 16),
        forall|i: int| 2 <= i < hex_text(n).len() ==> is_digit(#[trigger] hex_text(n)[i], 16),
        forall|i: int| 2 <= i < hex_text(n).len() ==> hex_text(n)[i] != 'x',
        hex_text(n)[2] == '0' <==> n == 0,
        digits_value(hex_text(n).subrange(2, hex_text(n).len() as int), 16) == n,
{
    reveal_strlit("0x");
    lemma_digits_shape(n, 16);
    lemma_digits_value(n, 16);
    assert(hex_text(n).subrange(2, hex_text(n).len() as int) =~= digits(n, 16));
    assert(hex_text(n)[2] == digits(n, 16)[0]);
}

/// A number in decimal is written with the digits `0`-`9` alone, so with no
/// separator; the first digit is `0` only for zero; and the digits read
/// back as the number.
pub proof fn lemma_decimal_text(n: nat)
    ensures
        decimal_text(n).len() >= 1,
        forall|i: int|
            0 <= i < decimal_text(n).len() ==> is_digit(#[trigger] decimal_text(n)[i], 10),
        decimal_text(n)[0] == '0' <==> n == 0,
        n == 0 ==> decimal_text(n) == seq!['0'],
        digits_value(decimal_text(n), 10) == n,
{
    lemma_digits_shape(n, 10);
    lemma_digits_value(n, 10);
}

} // verus!
