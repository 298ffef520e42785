use vstd::prelude::*;

use crate::error::ExecutionError;
use crate::id::{Id, NifId};
use crate::machine::NifHandler;
use crate::value::{as_bool, as_int, Value};

verus! {

/// The literals of the pool: booleans and unsigned integers.
#[derive(Clone, Copy, PartialEq, Eq, Structural, Hash, Debug)]
pub enum MyLiteral {
    Bool(bool),
    Int(u64),
}

pub open spec fn literal_value(lit: MyLiteral) -> Value {
    match lit {
        MyLiteral::Bool(b) => Value::Bool(b),
        MyLiteral::Int(n) => Value::Integral(n),
    }
}

pub fn literal_to_value(lit: &MyLiteral) -> (r: Value)
    ensures
        r == literal_value(*lit),
{
    match lit {
        MyLiteral::Bool(b) => Value::Bool(*b),
        MyLiteral::Int(n) => Value::Integral(*n),
    }
}

/// The result of a native function of two arguments, each read by `read`,
/// combined by `f`: the first argument's error comes first.
pub open spec fn binary_nif<A>(
    args: Seq<Value>,
    read: spec_fn(Value) -> Result<A, ExecutionError>,
    f: spec_fn(A, A) -> Result<Value, ExecutionError>,
) -> Result<Value, ExecutionError> {
    if args.len() < 2 {
        Err(ExecutionError::ArityError { expected: 2, got: args.len() as usize })
    } else {
        match (read(args[0]), read(args[1])) {
            (Err(e), _) => Err(e),
            (_, Err(e)) => Err(e),
            (Ok(a), Ok(b)) => f(a, b),
        }
    }
}

pub open spec fn eq_result<A>(a: A, b: A) -> Result<Value, ExecutionError> {
    Ok(Value::Bool(a == b))
}

pub open spec fn expect_eq_result<A>(a: A, b: A) -> Result<Value, ExecutionError> {
    if a == b {
        Ok(Value::Bool(true))
    } else {
        Err(ExecutionError::AssertionFailed)
    }
}

fn check_two_args(args: &[Value]) -> (r: Result<(), ExecutionError>)
    ensures
        args@.len() < 2 ==> r == Err::<(), ExecutionError>(
            ExecutionError::ArityError { expected: 2, got: args@.len() as usize },
        ),
        args@.len() >= 2 ==> r is Ok,
{
    if args.len() < 2 {
        Err(ExecutionError::ArityError { expected: 2, got: args.len() })
    } else {
        Ok(())
    }
}

/// Whether two booleans are equal.
pub fn nif_bool_eq(args: &[Value]) -> (r: Result<Value, ExecutionError>)
    ensures
        r == binary_nif(args@, |v: Value| as_bool(v), |a: bool, b: bool| eq_result(a, b)),
{
    check_two_args(args)?;
    let n1 = args[0].bool()?;
    let n2 = args[1].bool()?;
    let ret = n1 == n2;
    Ok(Value::Bool(ret))
}

/// Fails unless two booleans are equal.
pub fn nif_expect_bool_eq(args: &[Value]) -> (r: Result<Value, ExecutionError>)
    ensures
        r == binary_nif(args@, |v: Value| as_bool(v), |a: bool, b: bool| expect_eq_result(a, b)),
{
    check_two_args(args)?;
    let n1 = args[0].bool()?;
    let n2 = args[1].bool()?;
    if n1 != n2 {
        return Err(ExecutionError::AssertionFailed);
    }
    Ok(Value::Bool(true))
}

/// Whether two integers are equal.
pub fn nif_int_eq(args: &[Value]) -> (r: Result<Value, ExecutionError>)
    ensures
        r == binary_nif(args@, |v: Value| as_int(v), |a: u64, b: u64| eq_result(a, b)),
{
    check_two_args(args)?;
    let n1 = args[0].integral()?;
    let n2 = args[1].integral()?;
    let ret = n1 == n2;
    Ok(Value::Bool(ret))
}

/// Fails unless two integers are equal.
pub fn nif_expect_int_eq(args: &[Value]) -> (r: Result<Value, ExecutionError>)
    ensures
        r == binary_nif(args@, |v: Value| as_int(v), |a: u64, b: u64| expect_eq_result(a, b)),
{
    check_two_args(args)?;
    let n1 = args[0].integral()?;
    let n2 = args[1].integral()?;
    if n1 != n2 {
        return Err(ExecutionError::AssertionFailed);
    }
    Ok(Value::Bool(true))
}

/// The identifiers under which `BuiltinNifs` provides its functions.
pub const NIF_EXPECT_BOOL: u32 = 0;
pub const NIF_BOOL_EQ: u32 = 1;
pub const NIF_EXPECT_INT: u32 = 2;
pub const NIF_INT_EQ: u32 = 3;

/// A host with the equality and assertion natives on booleans and integers.
pub struct BuiltinNifs;

impl NifHandler for BuiltinNifs {
    fn call_nif(&mut self, nif: NifId, args: &[Value]) -> Result<Value, ExecutionError> {
        let Id(n) = nif.0;
        if n == NIF_EXPECT_BOOL {
            nif_expect_bool_eq(args)
        } else if n == NIF_BOOL_EQ {
            nif_bool_eq(args)
        } else if n == NIF_EXPECT_INT {
            nif_expect_int_eq(args)
        } else if n == NIF_INT_EQ {
            nif_int_eq(args)
        } else {
            Err(ExecutionError::UnknownNif { nif })
        }
    }
}

} // verus!
