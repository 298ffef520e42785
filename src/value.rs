use vstd::prelude::*;

use crate::error::ExecutionError;
use crate::id::{ConstrId, ValueFun};

verus! {

/// A runtime value of the machine.
#[derive(Debug, PartialEq)]
pub enum Value {
    Unit,
    Bool(bool),
    Integral(u64),
    Fun(ValueFun),
    Struct(ConstrId, Vec<Value>),
}

/// The tag of a value, as reported by kind errors.
#[derive(Clone, Copy, PartialEq, Eq, Structural, Debug)]
pub enum ValueKind {
    Unit,
    Bool,
    Integral,
    Fun,
    Struct,
}

pub open spec fn kind_of(v: Value) -> ValueKind {
    match v {
        Value::Unit => ValueKind::Unit,
        Value::Bool(_) => ValueKind::Bool,
        Value::Integral(_) => ValueKind::Integral,
        Value::Fun(_) => ValueKind::Fun,
        Value::Struct(_, _) => ValueKind::Struct,
    }
}

/// The mathematical form of a value: what it denotes, whatever buffers hold it.
pub enum Val {
    Unit,
    Bool(bool),
    Integral(u64),
    Fun(ValueFun),
    Struct(ConstrId, Seq<Val>),
}

pub open spec fn val_of(v: Value) -> Val
    decreases v,
{
    match v {
        Value::Unit => Val::Unit,
        Value::Bool(b) => Val::Bool(b),
        Value::Integral(n) => Val::Integral(n),
        Value::Fun(f) => Val::Fun(f),
        Value::Struct(c, fields) => Val::Struct(
            c,
            Seq::new(fields@.len(), |i: int| if 0 <= i < fields@.len() { val_of(fields@[i]) } else { Val::Unit }),
        ),
    }
}

/// A deep copy of `v`.
pub fn copy_value(v: &Value) -> (r: Value)
    ensures
        val_of(r) == val_of(*v),
    decreases v,
{
    match *v {
        Value::Unit => Value::Unit,
        Value::Bool(b) => Value::Bool(b),
        Value::Integral(n) => Value::Integral(n),
        Value::Fun(f) => Value::Fun(f),
        Value::Struct(c, ref fields) => {
            let mut out: Vec<Value> = Vec::new();
            let mut i: usize = 0;
            while i < fields.len()
                invariant
                    v is Struct,
                    v->Struct_1 == *fields,
                    i <= fields.len(),
                    out@.len() == i,
                    forall|j: int| 0 <= j < i ==> val_of(#[trigger] out@[j]) == val_of(fields@[j]),
                decreases fields.len() - i,
            {
                proof {
                    broadcast use vstd::std_specs::vec::axiom_vec_index_decreases;
                    assert(decreases_to!(*v => v->Struct_1));
                    assert(decreases_to!(*fields => fields[i as int]));
                }
                let f = copy_value(&fields[i]);
                out.push(f);
                i = i + 1;
            }
            let r = Value::Struct(c, out);
            assert(val_of(r) == val_of(*v)) by {
                if let Val::Struct(_, a) = val_of(r) {
                    if let Val::Struct(_, b) = val_of(*v) {
                        assert(a =~= b);
                    }
                }
            }
            r
        }
    }
}

impl Value {
    pub fn kind(&self) -> (r: ValueKind)
        ensures
            r == kind_of(*self),
    {
        match self {
            Value::Unit => ValueKind::Unit,
            Value::Bool(_) => ValueKind::Bool,
            Value::Integral(_) => ValueKind::Integral,
            Value::Fun(_) => ValueKind::Fun,
            Value::Struct(_, _) => ValueKind::Struct,
        }
    }
}

/// The boolean that `v` holds, or the kind error for it.
pub open spec fn as_bool(v: Value) -> Result<bool, ExecutionError> {
    match v {
        Value::Bool(b) => Ok(b),
        _ => Err(
            ExecutionError::ValueKindUnexpected { value_expected: ValueKind::Bool, value_got: kind_of(v) },
        ),
    }
}

/// The integer that `v` holds, or the kind error for it.
pub open spec fn as_int(v: Value) -> Result<u64, ExecutionError> {
    match v {
        Value::Integral(n) => Ok(n),
        _ => Err(
            ExecutionError::ValueKindUnexpected {
                value_expected: ValueKind::Integral,
                value_got: kind_of(v),
            },
        ),
    }
}

impl Value {
    pub fn bool(&self) -> (r: Result<bool, ExecutionError>)
        ensures
            r == as_bool(*self),
    {
        match self {
            Value::Bool(b) => Ok(*b),
            _ => Err(
                ExecutionError::ValueKindUnexpected {
                    value_expected: ValueKind::Bool,
                    value_got: self.kind(),
                },
            ),
        }
    }

    pub fn integral(&self) -> (r: Result<u64, ExecutionError>)
        ensures
            r == as_int(*self),
    {
        match self {
            Value::Integral(n) => Ok(*n),
            _ => Err(
                ExecutionError::ValueKindUnexpected {
                    value_expected: ValueKind::Integral,
                    value_got: self.kind(),
                },
            ),
        }
    }
}

impl Clone for Value {
    fn clone(&self) -> (r: Self)
        ensures
            val_of(r) == val_of(*self),
    {
        copy_value(self)
    }
}

} // verus!
