use vstd::prelude::*;

use crate::id::{ConstrId, FunId, GlobalId, LitId, NifId};
use crate::nifs::MyLiteral;
use crate::value::Value;

verus! {

/// The position of an instruction in the code of a module.
#[derive(Clone, Copy, PartialEq, Eq, Structural, Debug)]
pub struct InstructionAddress(pub u32);

/// A signed jump distance, relative to the jumping instruction.
#[derive(Clone, Copy, PartialEq, Eq, Structural, Debug)]
pub struct InstructionDiff(pub i32);

/// The number of arguments of a call.
#[derive(Clone, Copy, PartialEq, Eq, Structural, Debug)]
pub struct CallArity(pub u8);

/// The number of local slots a function reserves on entry.
#[derive(Clone, Copy, PartialEq, Eq, Structural, Debug)]
pub struct LocalStackSize(pub u32);

/// An offset forward from the stack pointer, into the local window.
#[derive(Clone, Copy, PartialEq, Eq, Structural, Debug)]
pub struct LocalBindIndex(pub u32);

/// An offset backward from the stack pointer, into the parameter window.
#[derive(Clone, Copy, PartialEq, Eq, Structural, Debug)]
pub struct ParamBindIndex(pub u8);

#[derive(Clone, Copy, PartialEq, Eq, Structural, Debug)]
pub enum Instruction {
    PushLiteral(LitId),
    FetchGlobal(GlobalId),
    FetchNif(NifId),
    FetchFun(FunId),
    FetchStackLocal(LocalBindIndex),
    FetchStackParam(ParamBindIndex),
    AccessField(ConstrId, u32),
    LocalBind(LocalBindIndex),
    IgnoreOne,
    Call(CallArity),
    Jump(InstructionDiff),
    CondJump(InstructionDiff),
    Ret,
}

/// Where a function's code starts, how many locals it reserves, and its arity.
#[derive(Clone, Copy, PartialEq, Eq, Structural, Debug)]
pub struct FunDef {
    pub code_pos: InstructionAddress,
    pub stack_size: LocalStackSize,
    pub arity: CallArity,
}

#[derive(Clone, Copy, PartialEq, Eq, Structural, Debug)]
pub struct ConstrDef {
    pub field_count: u32,
}

/// A finalized module: code and the tables its instructions index.
pub struct CompiledModule {
    pub code: Vec<Instruction>,
    pub lits: Vec<MyLiteral>,
    pub funs: Vec<FunDef>,
    pub constrs: Vec<ConstrDef>,
    pub globals: Vec<Value>,
}

impl CompiledModule {
    /// Every instruction address fits the address type.
    pub open spec fn wf(&self) -> bool {
        self.code@.len() <= u32::MAX
    }
}

} // verus!
