use vstd::prelude::*;

use crate::ast::same_text;
pub use crate::number::{Decimal, Number};

verus! {

/// A bare name of the lowered form, without a source span.
#[derive(Clone, Debug, PartialEq, Eq, Hash)]
pub struct Ident(pub String);

impl From<String> for Ident {
    fn from(s: String) -> (r: Self) {
        Ident(s)
    }
}

impl vstd::std_specs::convert::FromSpecImpl<String> for Ident {
    open spec fn obeys_from_spec() -> bool {
        true
    }

    open spec fn from_spec(s: String) -> Self {
        Ident(s)
    }
}

/// Goes through `Ident::from_text`, whose contract states the result; a
/// specification cannot name the `String` built from a `&str`.
impl From<&str> for Ident {
    fn from(s: &str) -> (r: Self) {
        Ident::from_text(s)
    }
}

impl vstd::std_specs::convert::FromSpecImpl<&str> for Ident {
    open spec fn obeys_from_spec() -> bool {
        false
    }

    open spec fn from_spec(s: &str) -> Self {
        arbitrary()
    }
}

impl Ident {
    /// The name made of the characters of `s`.
    pub fn from_text(s: &str) -> (r: Self)
        ensures
            r.0@ == s@,
    {
        Ident(s.to_owned())
    }

    pub fn matches(&self, s: &str) -> (r: bool)
        ensures
            r == (self.0@ == s@),
    {
        same_text(self.0.as_str(), s)
    }
}

#[derive(Debug)]
pub enum Literal {
    String(String),
    Number(Number),
    Decimal(Decimal),
    Bytes(Box<[u8]>),
}

} // verus!
