use vstd::prelude::*;

use bigdecimal::{BigDecimal, ParseBigDecimalError};
use num_bigint::{BigInt, ParseBigIntError};

verus! {

#[verifier::external_type_specification]
#[verifier::external_body]
pub struct ExBigInt(BigInt);

#[verifier::external_type_specification]
#[verifier::external_body]
pub struct ExParseBigIntError(ParseBigIntError);

#[verifier::external_type_specification]
#[verifier::external_body]
pub struct ExBigDecimal(BigDecimal);

#[verifier::external_type_specification]
#[verifier::external_body]
pub struct ExParseBigDecimalError(ParseBigDecimalError);

/// The value of `c` as a digit of any radix up to 36, if it is one.
pub open spec fn digit_value(c: char) -> Option<u32> {
    if '0' <= c <= '9' {
        Some((c as u32 - '0' as u32) as u32)
    } else if 'a' <= c <= 'z' {
        Some((c as u32 - 'a' as u32 + 10) as u32)
    } else if 'A' <= c <= 'Z' {
        Some((c as u32 - 'A' as u32 + 10) as u32)
    } else {
        None
    }
}

/// `s` without one leading `sign` character, unless a `+` follows it.
pub open spec fn strip_sign(s: Seq<char>, sign: char) -> Seq<char> {
    if s.len() > 0 && s[0] == sign && !(s.len() > 1 && s[1] == '+') {
        s.drop_first()
    } else {
        s
    }
}

/// The text is an integer in `radix`: an optional sign, then digits that
/// `_` may separate, not led by `_`.
pub open spec fn integer_text_ok(s: Seq<char>, radix: u32) -> bool {
    let d = strip_sign(strip_sign(s, '-'), '+');
    &&& d.len() > 0
    &&& d[0] != '_'
    &&& forall|i: int|
        0 <= i < d.len() ==> #[trigger] d[i] == '_' || (digit_value(d[i]) is Some
            && digit_value(d[i])->0 < radix)
}

/// Relies on num-bigint's `BigInt::from_str_radix` (through num-traits'
/// `Num`): it accepts exactly the text `integer_text_ok` describes, and panics
/// on a radix outside 2..=36.
#[verifier::external_body]
fn parse_bigint(s: &str, radix: u32) -> (r: Result<BigInt, ParseBigIntError>)
    requires
        2 <= radix <= 36,
    ensures
        r is Ok <==> integer_text_ok(s@, radix),
{
    <BigInt as num_traits::Num>::from_str_radix(s, radix)
}

/// Whether `BigDecimal::from_str` accepts the text `s`.
pub uninterp spec fn decimal_text_ok(s: Seq<char>) -> bool;

/// Relies on bigdecimal's `BigDecimal::from_str`: whether it succeeds depends
/// on the text alone, and it refuses the empty text.
#[verifier::external_body]
fn parse_bigdecimal(s: &str) -> (r: Result<BigDecimal, ParseBigDecimalError>)
    ensures
        r is Ok <==> decimal_text_ok(s@),
        s@.len() == 0 ==> r is Err,
{
    <BigDecimal as core::str::FromStr>::from_str(s)
}

/// An integer literal, of arbitrary precision.
#[derive(Debug)]
pub struct Number(pub BigInt);

impl Number {
    /// Reads an integer written in `n`, with an optional sign.
    pub fn from_str_radix(s: &str, n: u32) -> (r: Result<Self, ()>)
        requires
            2 <= n <= 36,
        ensures
            r is Ok <==> integer_text_ok(s@, n),
    {
        match parse_bigint(s, n) {
            Ok(v) => Ok(Number(v)),
            Err(_) => Err(()),
        }
    }
}

/// A decimal literal, of arbitrary precision.
#[derive(Debug)]
pub struct Decimal(pub BigDecimal);

impl Decimal {
    pub fn from_str(s: &str) -> (r: Result<Self, ()>)
        ensures
            r is Ok <==> decimal_text_ok(s@),
            s@.len() == 0 ==> r is Err,
    {
        match parse_bigdecimal(s) {
            Ok(v) => Ok(Decimal(v)),
            Err(_) => Err(()),
        }
    }
}

} // verus!
