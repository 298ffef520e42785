use vstd::prelude::*;
use vstd::string::StrSliceExecFns;

pub use crate::number::{Decimal, Number};

verus! {

pub type Span = core::ops::Range<usize>;

/// A parsed source file: its top-level statements in order.
#[derive(Debug)]
pub struct Module {
    pub statements: Vec<Statement>,
}

/// A name as written in the source.
#[derive(Clone, Debug, PartialEq, Eq, Hash)]
pub struct Ident(pub String);

/// Whether the characters of `a` and `b` are the same.
pub fn same_text(a: &str, b: &str) -> (r: bool)
    ensures
        r == (a@ == b@),
{
    let n = a.unicode_len();
    if n != b.unicode_len() {
        return false;
    }
    let mut i: usize = 0;
    while i < n
        invariant
            n == a@.len(),
            n == b@.len(),
            i <= n,
            a@.subrange(0, i as int) == b@.subrange(0, i as int),
        decreases n - i,
    {
        if a.get_char(i) != b.get_char(i) {
            assert(a@[i as int] != b@[i as int]);
            return false;
        }
        assert(a@.subrange(0, i + 1) =~= a@.subrange(0, i as int).push(a@[i as int]));
        assert(b@.subrange(0, i + 1) =~= b@.subrange(0, i as int).push(b@[i as int]));
        i = i + 1;
    }
    assert(a@ =~= a@.subrange(0, n as int));
    assert(b@ =~= b@.subrange(0, n as int));
    true
}

impl From<String> for Ident {
    fn from(s: String) -> (r: Self) {
        Ident(s)
    }
}

impl vstd::std_specs::convert::FromSpecImpl<String> for Ident {
    open spec fn obeys_from_spec() -> bool {
        true
    }

    open spec fn from_spec(s: String) -> Self {
        Ident(s)
    }
}

/// Goes through `Ident::from_text`, whose contract states the result; a
/// specification cannot name the `String` built from a `&str`.
impl From<&str> for Ident {
    fn from(s: &str) -> (r: Self) {
        Ident::from_text(s)
    }
}

impl vstd::std_specs::convert::FromSpecImpl<&str> for Ident {
    open spec fn obeys_from_spec() -> bool {
        false
    }

    open spec fn from_spec(s: &str) -> Self {
        arbitrary()
    }
}

impl Ident {
    /// The name made of the characters of `s`.
    pub fn from_text(s: &str) -> (r: Self)
        ensures
            r.0@ == s@,
    {
        Ident(s.to_owned())
    }

    pub fn matches(&self, s: &str) -> (r: bool)
        ensures
            r == (self.0@ == s@),
    {
        same_text(self.0.as_str(), s)
    }
}

#[derive(Debug)]
pub enum Statement {
    Function(Span, Ident, Vec<Ident>, Vec<Statement>),
    Expr(Expr),
}

#[derive(Debug)]
pub enum Expr {
    Literal(Span, Literal),
    List(Span, Vec<Expr>),
    Let(Ident, Box<Expr>, Box<Expr>),
    Then(Box<Expr>, Box<Expr>),
    Ident(Span, Ident),
    Call(Span, Vec<Expr>),
    If { span: Span, cond: Box<Expr>, then_expr: Box<Expr>, else_expr: Box<Expr> },
}

#[derive(Debug)]
pub enum Literal {
    String(String),
    Number(Number),
    Decimal(Decimal),
    Bytes(Box<[u8]>),
}

} // verus!
