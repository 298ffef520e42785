use vstd::prelude::*;

use crate::bytecode::{
    CallArity, CompiledModule, Instruction, InstructionAddress, LocalStackSize,
};
use crate::error::ExecutionError;
use crate::id::{FunId, NifId, ValueFun};
use crate::nifs::literal_value;
use crate::value::{val_of, Val, Value, ValueKind};

verus! {

/// What a call leaves on the return stack, restored by the matching `Ret`.
#[derive(Clone, Copy, PartialEq, Eq, Structural, Debug)]
pub struct CallFrame {
    pub ret_ip: InstructionAddress,
    pub sp: usize,
    pub stack_size: LocalStackSize,
    pub arity: CallArity,
}

/// The host side of native calls: it runs the native function `nif` on the
/// argument window of the operand stack. The host is also the embedder's
/// context, which a native function may change.
pub trait NifHandler {
    fn call_nif(&mut self, nif: NifId, args: &[Value]) -> Result<Value, ExecutionError>;
}

/// A native call as the machine made it: the function, its arguments, and
/// what the host answered.
pub type NativeCall = (NifId, Seq<Val>, Result<Value, ExecutionError>);

pub struct ExecutionMachine<'m, H> {
    pub module: &'m CompiledModule,
    pub host: H,
    /// Every native call made so far: the function, the arguments handed to
    /// the host, and the host's answer.
    pub native_calls: Ghost<Seq<NativeCall>>,
    pub stack: Vec<Value>,
    pub rets: Vec<CallFrame>,
    pub ip: InstructionAddress,
    pub sp: usize,
    pub current_stack_size: LocalStackSize,
    pub aborted: bool,
}

/// The machine's registers and stacks, with each value in its mathematical form.
pub struct State {
    pub stack: Seq<Val>,
    pub rets: Seq<CallFrame>,
    pub ip: u32,
    pub sp: int,
    pub frame_size: u32,
}

pub open spec fn vals(s: Seq<Value>) -> Seq<Val> {
    s.map_values(|v: Value| val_of(v))
}

pub open spec fn val_kind(v: Val) -> ValueKind {
    match v {
        Val::Unit => ValueKind::Unit,
        Val::Bool(_) => ValueKind::Bool,
        Val::Integral(_) => ValueKind::Integral,
        Val::Fun(_) => ValueKind::Fun,
        Val::Struct(_, _) => ValueKind::Struct,
    }
}

/// The result of one instruction: a next state, the program's value with the
/// state it leaves, an error, or a native call still to be made.
pub enum Transition {
    Next(State),
    Done(State, Val),
    Fail(ExecutionError),
    Native(NifId, CallArity),
}

pub open spec fn invalid(s: State) -> Transition {
    Transition::Fail(ExecutionError::InvalidBytecode { ip: s.ip })
}

/// A value can be popped without reaching into the locals of the frame.
pub open spec fn can_pop(s: State) -> bool {
    s.stack.len() > s.sp + s.frame_size
}

pub open spec fn advance(s: State, stack: Seq<Val>) -> State {
    State { stack: stack, ip: (s.ip + 1) as u32, ..s }
}

pub open spec fn jump(s: State, stack: Seq<Val>, d: i32) -> Transition {
    let t = s.ip + d;
    if 0 <= t <= u32::MAX {
        Transition::Next(State { stack: stack, ip: t as u32, ..s })
    } else {
        invalid(s)
    }
}

pub open spec fn units(n: nat) -> Seq<Val> {
    Seq::new(n, |i: int| Val::Unit)
}

/// The state in which function `f` starts, called with arity `a` on the
/// stack of `s`: its local window reserved above the arguments.
pub open spec fn enter_spec(m: &CompiledModule, s: State, f: FunId, a: CallArity) -> Result<
    State,
    ExecutionError,
> {
    if f.0.0 >= m.funs@.len() {
        Err(ExecutionError::InvalidBytecode { ip: s.ip })
    } else {
        let fd = m.funs@[f.0.0 as int];
        if fd.arity != a {
            Err(ExecutionError::ArityError { expected: fd.arity.0 as usize, got: a.0 as usize })
        } else {
            Ok(
                State {
                    stack: s.stack + units(fd.stack_size.0 as nat),
                    rets: s.rets,
                    ip: fd.code_pos.0,
                    sp: s.stack.len() as int,
                    frame_size: fd.stack_size.0,
                },
            )
        }
    }
}

pub open spec fn return_frame(s: State, a: CallArity) -> CallFrame {
    CallFrame {
        ret_ip: InstructionAddress((s.ip + 1) as u32),
        sp: s.sp as usize,
        stack_size: LocalStackSize(s.frame_size),
        arity: a,
    }
}

pub open spec fn call_spec(m: &CompiledModule, s: State, a: CallArity) -> Transition {
    let pos = s.stack.len() - a.0 - 1;
    if pos < s.sp + s.frame_size {
        invalid(s)
    } else {
        match s.stack[pos] {
            Val::Fun(ValueFun::Native(n)) => Transition::Native(n, a),
            Val::Fun(ValueFun::Fun(f)) => match enter_spec(m, s, f, a) {
                Ok(s2) => Transition::Next(State { rets: s.rets.push(return_frame(s, a)), ..s2 }),
                Err(e) => Transition::Fail(e),
            },
            v => Transition::Fail(
                ExecutionError::ValueKindUnexpected {
                    value_expected: ValueKind::Fun,
                    value_got: val_kind(v),
                },
            ),
        }
    }
}

/// The arguments of a call of arity `a` made from `s`: the values above the
/// callee.
pub open spec fn call_window(s: State, a: CallArity) -> Seq<Val> {
    s.stack.subrange(s.stack.len() - a.0, s.stack.len() as int)
}

/// What a native call of arity `a` made from `s` leads to, given what the
/// host returned: the callee and arguments replaced by the result.
pub open spec fn nif_return(s: State, a: CallArity, res: Result<Value, ExecutionError>) -> Transition {
    match res {
        Ok(v) => Transition::Next(
            advance(s, s.stack.subrange(0, s.stack.len() - a.0 - 1).push(val_of(v))),
        ),
        Err(e) => Transition::Fail(e),
    }
}

pub open spec fn ret_spec(s: State) -> Transition {
    let v = s.stack.last();
    if s.rets.len() == 0 {
        Transition::Done(State { stack: s.stack.drop_last(), ..s }, v)
    } else {
        let fr = s.rets.last();
        let base = s.sp - fr.arity.0 - 1;
        if base < 0 || fr.sp + fr.stack_size.0 > base {
            invalid(s)
        } else {
            Transition::Next(
                State {
                    stack: s.stack.subrange(0, base).push(v),
                    rets: s.rets.drop_last(),
                    ip: fr.ret_ip.0,
                    sp: fr.sp as int,
                    frame_size: fr.stack_size.0,
                },
            )
        }
    }
}

/// A field access checks the constructor's tag, then that the struct has the
/// field count its constructor declares, then the index.
pub open spec fn access_field_spec(
    m: &CompiledModule,
    s: State,
    c: crate::id::ConstrId,
    idx: u32,
) -> Transition {
    match s.stack.last() {
        Val::Struct(got, fields) => if got != c {
            Transition::Fail(ExecutionError::StructMismatch { constr_expected: c, constr_got: got })
        } else if c.0.0 >= m.constrs@.len() || fields.len() != m.constrs@[c.0.0 as int].field_count {
            invalid(s)
        } else if idx >= fields.len() {
            Transition::Fail(
                ExecutionError::StructFieldOutOfBound {
                    constr: got,
                    field_index: idx,
                    struct_len: fields.len() as usize,
                },
            )
        } else {
            Transition::Next(advance(s, s.stack.drop_last().push(fields[idx as int])))
        },
        v => Transition::Fail(
            ExecutionError::ValueKindUnexpected {
                value_expected: ValueKind::Struct,
                value_got: val_kind(v),
            },
        ),
    }
}

pub open spec fn cond_jump_spec(s: State, d: i32) -> Transition {
    match s.stack.last() {
        Val::Bool(true) => Transition::Next(advance(s, s.stack.drop_last())),
        Val::Bool(false) => jump(s, s.stack.drop_last(), d),
        v => Transition::Fail(
            ExecutionError::ValueKindUnexpected {
                value_expected: ValueKind::Bool,
                value_got: val_kind(v),
            },
        ),
    }
}

/// The meaning of the instruction at `s.ip` in module `m`.
pub open spec fn step_spec(m: &CompiledModule, s: State) -> Transition {
    if s.ip >= m.code@.len() {
        invalid(s)
    } else {
        match m.code@[s.ip as int] {
            Instruction::PushLiteral(l) => if l.0.0 < m.lits@.len() {
                Transition::Next(
                    advance(s, s.stack.push(val_of(literal_value(m.lits@[l.0.0 as int])))),
                )
            } else {
                invalid(s)
            },
            Instruction::FetchGlobal(g) => if g.0.0 < m.globals@.len() {
                Transition::Next(advance(s, s.stack.push(val_of(m.globals@[g.0.0 as int]))))
            } else {
                invalid(s)
            },
            Instruction::FetchNif(n) => Transition::Next(
                advance(s, s.stack.push(Val::Fun(ValueFun::Native(n)))),
            ),
            Instruction::FetchFun(f) => Transition::Next(
                advance(s, s.stack.push(Val::Fun(ValueFun::Fun(f)))),
            ),
            Instruction::FetchStackLocal(i) => if i.0 < s.frame_size {
                Transition::Next(advance(s, s.stack.push(s.stack[s.sp + i.0])))
            } else {
                invalid(s)
            },
            Instruction::FetchStackParam(p) => if p.0 < s.sp {
                Transition::Next(advance(s, s.stack.push(s.stack[s.sp - p.0 - 1])))
            } else {
                invalid(s)
            },
            Instruction::AccessField(c, idx) => if can_pop(s) {
                access_field_spec(m, s, c, idx)
            } else {
                invalid(s)
            },
            Instruction::LocalBind(i) => if can_pop(s) && i.0 < s.frame_size {
                Transition::Next(
                    advance(s, s.stack.drop_last().update(s.sp + i.0, s.stack.last())),
                )
            } else {
                invalid(s)
            },
            Instruction::IgnoreOne => if can_pop(s) {
                Transition::Next(advance(s, s.stack.drop_last()))
            } else {
                invalid(s)
            },
            Instruction::Call(a) => call_spec(m, s, a),
            Instruction::Jump(d) => jump(s, s.stack, d.0),
            Instruction::CondJump(d) => if can_pop(s) {
                cond_jump_spec(s, d.0)
            } else {
                invalid(s)
            },
            Instruction::Ret => if can_pop(s) {
                ret_spec(s)
            } else {
                invalid(s)
            },
        }
    }
}

/// `r` and `after` are what the transition `t` returns and leaves.
pub open spec fn outcome(t: Transition, r: Result<Option<Value>, ExecutionError>, after: State) -> bool {
    match t {
        Transition::Next(s2) => r == Ok::<Option<Value>, ExecutionError>(None) && after == s2,
        Transition::Done(s2, v) => r is Ok && r->Ok_0 is Some && val_of(r->Ok_0->Some_0) == v
            && after == s2,
        Transition::Fail(e) => r == Err::<Option<Value>, ExecutionError>(e),
        Transition::Native(_, _) => false,
    }
}

impl<'m, H> ExecutionMachine<'m, H> {
    pub open spec fn state(&self) -> State {
        State {
            stack: vals(self.stack@),
            rets: self.rets@,
            ip: self.ip.0,
            sp: self.sp as int,
            frame_size: self.current_stack_size.0,
        }
    }

    /// The stack pointer and the local window lie within the operand stack.
    pub open spec fn wf(&self) -> bool {
        &&& self.module.wf()
        &&& self.sp + self.current_stack_size.0 <= self.stack@.len()
    }

    pub fn new(module: &'m CompiledModule, host: H) -> (r: Self)
        requires
            module.wf(),
        ensures
            r.wf(),
            r.module == module,
            r.host == host,
            r.native_calls@.len() == 0,
            r.stack@.len() == 0,
            r.rets@.len() == 0,
            r.ip.0 == 0,
            r.sp == 0,
            r.current_stack_size.0 == 0,
            !r.aborted,
    {
        ExecutionMachine {
            module,
            host,
            native_calls: Ghost(Seq::empty()),
            stack: Vec::new(),
            rets: Vec::new(),
            ip: InstructionAddress(0),
            sp: 0,
            current_stack_size: LocalStackSize(0),
            aborted: false,
        }
    }

    /// Asks the machine to stop before its next instruction.
    pub fn abort(&mut self)
        ensures
            final(self).aborted,
            final(self).state() == old(self).state(),
            final(self).module == old(self).module,
            final(self).host == old(self).host,
            final(self).native_calls == old(self).native_calls,
    {
        self.aborted = true;
    }

    pub fn aborted(&self) -> (r: bool)
        ensures
            r == self.aborted,
    {
        self.aborted
    }
}

} // verus!
