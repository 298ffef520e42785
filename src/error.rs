use vstd::prelude::*;

use crate::id::{ConstrId, NifId};
use crate::value::ValueKind;

verus! {

/// Why a run of the machine stopped without a value.
#[derive(Clone, Copy, PartialEq, Eq, Structural, Debug)]
pub enum ExecutionError {
    /// The embedder asked the machine to stop.
    Abort,
    /// There is no suspended run to resume.
    ExecutionFinished,
    /// More entry arguments than a call arity can count.
    ArityOverflow { got: usize },
    /// A callee received another number of arguments than it declares.
    ArityError { expected: usize, got: usize },
    ValueKindUnexpected { value_expected: ValueKind, value_got: ValueKind },
    StructMismatch { constr_expected: ConstrId, constr_got: ConstrId },
    StructFieldOutOfBound { constr: ConstrId, field_index: u32, struct_len: usize },
    /// The instruction at `ip` breaks the module's well-formedness: a table
    /// index, a stack slot or a jump target out of range.
    InvalidBytecode { ip: u32 },
    /// A native function was called that the host does not provide.
    UnknownNif { nif: NifId },
    /// A native assertion found its arguments unequal.
    AssertionFailed,
}

} // verus!
