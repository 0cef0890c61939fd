use vstd::prelude::*;
use std::str::FromStr;
use cosmwasm_std::Uint128;

verus! {

/// True for the ten ASCII decimal digits.
pub open spec fn is_digit(c: char) -> bool {
    '0' <= c && c <= '9'
}

/// The value of one decimal digit.
pub open spec fn digit_value(c: char) -> nat {
    (c as u32 - '0' as u32) as nat
}

/// The number that a string of decimal digits writes, most significant first.
pub open spec fn decimal_value(d: Seq<char>) -> nat
    decreases d.len(),
{
    if d.len() == 0 {
        0
    } else {
        decimal_value(d.drop_last()) * 10 + digit_value(d.last())
    }
}

/// The digits of an unsigned number in text: a single leading `+` is allowed.
pub open spec fn unsigned_digits(s: Seq<char>) -> Seq<char> {
    if s.len() > 0 && s[0] == '+' {
        s.drop_first()
    } else {
        s
    }
}

/// The text is a decimal number that fits in 128 bits.
pub open spec fn is_u128_text(s: Seq<char>) -> bool {
    let d = unsigned_digits(s);
    &&& d.len() > 0
    &&& forall|i: int| 0 <= i < d.len() ==> is_digit(#[trigger] d[i])
    &&& decimal_value(d) <= u128::MAX
}

/// The character of a decimal digit.
pub open spec fn digit_char(d: nat) -> char {
    seq!['0', '1', '2', '3', '4', '5', '6', '7', '8', '9'][d as int]
}

/// The shortest decimal text of a number.
pub open spec fn decimal_text(n: nat) -> Seq<char>
    decreases n,
{
    if n < 10 {
        seq![digit_char(n)]
    } else {
        decimal_text(n / 10).push(digit_char(n % 10))
    }
}

/// Relies on `cosmwasm_std::Uint128::from_str`, which parses with
/// `u128::from_str`: decimal digits with an optional leading `+`, no more
/// than `u128::MAX`.
#[verifier::external_body]
pub(crate) fn parse_u128(s: &String) -> (r: Option<u128>)
    ensures
        r is Some <==> is_u128_text(s@),
        r matches Some(v) ==> v as nat == decimal_value(unsigned_digits(s@)),
{
    Uint128::from_str(s).ok().map(|v| v.u128())
}

/// Relies on `u64`'s `Display` through `ToString`: the shortest decimal text.
#[verifier::external_body]
pub(crate) fn u64_text(n: u64) -> (r: String)
    ensures
        r@ == decimal_text(n as nat),
{
    n.to_string()
}

/// The amount that the text writes, when it is a decimal number of 128 bits.
pub open spec fn amount_of(s: Seq<char>) -> Option<u128> {
    if is_u128_text(s) {
        Some(decimal_value(unsigned_digits(s)) as u128)
    } else {
        None
    }
}

/// Reads an amount of tokens written in decimal, as the ledgers write them.
pub fn parse_amount(s: &String) -> (r: Option<u128>)
    ensures
        r == amount_of(s@),
{
    parse_u128(s)
}

} // verus!
