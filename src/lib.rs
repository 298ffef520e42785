//! A stack-based bytecode virtual machine with host-provided native functions.

pub mod ast;
pub mod bytecode;
pub mod error;
pub mod exec;
pub mod id;
pub mod ir;
pub mod laws;
pub mod literal;
pub mod machine;
pub mod nifs;
pub mod number;
pub mod value;

pub use bytecode::{
    CallArity, CompiledModule, ConstrDef, FunDef, Instruction, InstructionAddress,
    InstructionDiff, LocalBindIndex, LocalStackSize, ParamBindIndex,
};
pub use error::ExecutionError;
pub use id::{ConstrId, FunId, GlobalId, Id, IdRemapper, LitId, NifId, ValueFun};
pub use nifs::{
    literal_to_value, nif_bool_eq, nif_expect_bool_eq, nif_expect_int_eq, nif_int_eq,
    BuiltinNifs, MyLiteral, NIF_BOOL_EQ, NIF_EXPECT_BOOL, NIF_EXPECT_INT, NIF_INT_EQ,
};
pub use value::{copy_value, Value, ValueKind};
pub use machine::{CallFrame, ExecutionMachine, NativeCall, NifHandler, State, Transition};
pub use exec::{_check_arity, exec, exec_continue, exec_init, exec_loop, step, tick};
pub use number::{Decimal, Number};
pub use literal::{literal_mapper, CompilationError, Literal};
