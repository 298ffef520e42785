use vstd::prelude::*;

use crate::ast::same_text;
use crate::nifs::MyLiteral;

verus! {

/// A literal as the front end hands it over: its source text, by kind.
#[derive(Debug, PartialEq, Eq)]
pub enum Literal {
    Bool(String),
    String(String),
    Number(String),
    Decimal(String),
    Bytes(Vec<u8>),
}

#[derive(Debug, PartialEq, Eq)]
pub enum CompilationError {
    /// The machine's literal pool has no form for this kind of literal.
    LiteralNotSupported(Literal),
    /// The literal's text does not denote a value of its kind.
    LiteralInvalid(Literal),
}

/// The number that a string of decimal digits denotes.
pub open spec fn digits_value(d: Seq<char>) -> int
    decreases d.len(),
{
    if d.len() == 0 {
        0
    } else {
        digits_value(d.drop_last()) * 10 + (d.last() as int - '0' as int)
    }
}

/// What `u64::from_str_radix(s, 10)` reads: an optional `+`, then at least
/// one decimal digit, denoting a number that fits 64 bits.
pub open spec fn u64_of_text(s: Seq<char>) -> Option<u64> {
    let d = if s.len() > 0 && s[0] == '+' {
        s.drop_first()
    } else {
        s
    };
    if d.len() > 0 && (forall|i: int| 0 <= i < d.len() ==> '0' <= #[trigger] d[i] <= '9')
        && digits_value(d) <= u64::MAX {
        Some(digits_value(d) as u64)
    } else {
        None
    }
}

/// Relies on std's `u64::from_str_radix` in radix 10, as its documentation
/// states it: an optional `+` and digits only, within range.
#[verifier::external_body]
fn parse_u64(s: &str) -> (r: Option<u64>)
    ensures
        r == u64_of_text(s@),
{
    u64::from_str_radix(s, 10).ok()
}

/// The pool literal for a front-end literal: booleans by their text, integers
/// in decimal; other kinds have none.
pub open spec fn mapped_literal(lit: Literal) -> Result<MyLiteral, CompilationError> {
    match lit {
        Literal::Bool(b) => Ok(MyLiteral::Bool(b@ == "true"@)),
        Literal::Number(s) => match u64_of_text(s@) {
            Some(v) => Ok(MyLiteral::Int(v)),
            None => Err(CompilationError::LiteralInvalid(lit)),
        },
        _ => Err(CompilationError::LiteralNotSupported(lit)),
    }
}

pub fn literal_mapper(lit: Literal) -> (r: Result<MyLiteral, CompilationError>)
    ensures
        r == mapped_literal(lit),
{
    match lit {
        Literal::Bool(b) => {
            let t = same_text(b.as_str(), "true");
            Ok(MyLiteral::Bool(t))
        },
        Literal::Number(s) => {
            match parse_u64(s.as_str()) {
                Some(v) => Ok(MyLiteral::Int(v)),
                None => Err(CompilationError::LiteralInvalid(Literal::Number(s))),
            }
        },
        other => Err(CompilationError::LiteralNotSupported(other)),
    }
}

} // verus!
