use vstd::prelude::*;

use crate::bytecode::{CallArity, Instruction, InstructionAddress, LocalStackSize};
use crate::error::ExecutionError;
use crate::id::{FunId, NifId, ValueFun};
use crate::machine::{
    call_window, enter_spec, nif_return, outcome, step_spec, units, val_kind, vals,
    CallFrame, ExecutionMachine, NativeCall, NifHandler, State, Transition,
};
use crate::nifs::literal_to_value;
use crate::value::{copy_value, kind_of, val_of, Val, Value, ValueKind};

verus! {

proof fn lemma_vals_push(s: Seq<Value>, v: Value)
    ensures
        vals(s.push(v)) == vals(s).push(val_of(v)),
{
    assert(vals(s.push(v)) =~= vals(s).push(val_of(v)));
}

proof fn lemma_vals_prefix(s: Seq<Value>, n: int)
    requires
        0 <= n <= s.len(),
    ensures
        vals(s.subrange(0, n)) == vals(s).subrange(0, n),
{
    assert(vals(s.subrange(0, n)) =~= vals(s).subrange(0, n));
}

proof fn lemma_vals_update(s: Seq<Value>, i: int, v: Value)
    requires
        0 <= i < s.len(),
    ensures
        vals(s.update(i, v)) == vals(s).update(i, val_of(v)),
{
    assert(vals(s.update(i, v)) =~= vals(s).update(i, val_of(v)));
}

proof fn lemma_kind(v: Value)
    ensures
        kind_of(v) == val_kind(val_of(v)),
{
}

/// `b` differs from `a` at most in its operand stack.
pub open spec fn same_but_stack<'m, H>(a: &ExecutionMachine<'m, H>, b: &ExecutionMachine<'m, H>) -> bool {
    &&& a.module == b.module
    &&& a.host == b.host
    &&& a.native_calls == b.native_calls
    &&& a.aborted == b.aborted
    &&& a.rets == b.rets
    &&& a.ip == b.ip
    &&& a.sp == b.sp
    &&& a.current_stack_size == b.current_stack_size
}

pub open spec fn with_stack(s: State, stack: Seq<Val>) -> State {
    State { stack: stack, ..s }
}

/// What one instruction did, `log` and `log2` being the native calls
/// recorded before and after it: its transition taken, with the answer
/// recorded for a native call standing in for the call.
pub open spec fn step_taken(
    m: &crate::bytecode::CompiledModule,
    s: State,
    r: Result<Option<Value>, ExecutionError>,
    after: State,
    log: Seq<NativeCall>,
    log2: Seq<NativeCall>,
) -> bool {
    match step_spec(m, s) {
        Transition::Native(n, a) => {
            &&& log2 == log.push((n, call_window(s, a), log2.last().2))
            &&& outcome(nif_return(s, a, log2.last().2), r, after)
        },
        t => log2 == log && outcome(t, r, after),
    }
}

/// What the call protocol resolved a callee to.
pub enum CallResult {
    Jump(InstructionAddress, LocalStackSize),
    Value(Value),
}

/// The position of the callee of a call of arity `a`.
pub open spec fn callee_pos(s: State, a: CallArity) -> int {
    s.stack.len() - a.0 - 1
}

impl<'m, H> ExecutionMachine<'m, H> {
    fn push_value(&mut self, v: Value)
        ensures
            final(self).stack@ == old(self).stack@.push(v),
            same_but_stack(final(self), old(self)),
            final(self).state() == with_stack(old(self).state(), old(self).state().stack.push(val_of(v))),
    {
        self.stack.push(v);
        proof {
            lemma_vals_push(old(self).stack@, v);
        }
    }

    fn pop_value(&mut self) -> (r: Value)
        requires
            old(self).stack@.len() > 0,
        ensures
            r == old(self).stack@.last(),
            final(self).stack@ == old(self).stack@.drop_last(),
            same_but_stack(final(self), old(self)),
            final(self).state() == with_stack(old(self).state(), old(self).state().stack.drop_last()),
            val_of(r) == old(self).state().stack.last(),
    {
        let r = self.stack.pop().unwrap();
        proof {
            lemma_vals_prefix(old(self).stack@, old(self).stack@.len() - 1);
        }
        r
    }

    fn truncate_stack(&mut self, n: usize)
        requires
            n <= old(self).stack@.len(),
        ensures
            final(self).stack@ == old(self).stack@.subrange(0, n as int),
            same_but_stack(final(self), old(self)),
            final(self).state() == with_stack(old(self).state(), old(self).state().stack.subrange(0, n as int)),
    {
        self.stack.truncate(n);
        proof {
            lemma_vals_prefix(old(self).stack@, n as int);
        }
    }

    /// Sets the frame of a function entered at `ip` with `size` local slots,
    /// its window starting at the current top of the stack.
    fn set_frame(&mut self, ip: InstructionAddress, size: LocalStackSize)
        ensures
            final(self).module == old(self).module,
            final(self).host == old(self).host,
            final(self).native_calls == old(self).native_calls,
            final(self).aborted == old(self).aborted,
            final(self).rets == old(self).rets,
            final(self).stack@.len() == old(self).stack@.len() + size.0,
            final(self).sp == old(self).stack@.len(),
            final(self).current_stack_size == size,
            final(self).state() == (State {
                stack: old(self).state().stack + units(size.0 as nat),
                rets: old(self).rets@,
                ip: ip.0,
                sp: old(self).stack@.len() as int,
                frame_size: size.0,
            }),
    {
        let ghost s0 = self.state().stack;
        self.sp = self.stack.len();
        let mut i: u32 = 0;
        while i < size.0
            invariant
                i <= size.0,
                self.sp == old(self).stack@.len(),
                self.stack@.len() == old(self).stack@.len() + i,
                self.state().stack == s0 + units(i as nat),
                self.module == old(self).module,
                self.host == old(self).host,
                self.native_calls == old(self).native_calls,
                self.aborted == old(self).aborted,
                self.rets == old(self).rets,
                s0 == vals(old(self).stack@),
            decreases size.0 - i,
        {
            self.push_value(Value::Unit);
            i = i + 1;
            assert(self.state().stack =~= s0 + units(i as nat));
        }
        self.current_stack_size = size;
        self.ip = ip;
    }

    fn ip_next(&mut self)
        requires
            old(self).ip.0 < u32::MAX,
        ensures
            final(self).ip.0 == old(self).ip.0 + 1,
            final(self).stack == old(self).stack,
            final(self).module == old(self).module,
            final(self).host == old(self).host,
            final(self).native_calls == old(self).native_calls,
            final(self).aborted == old(self).aborted,
            final(self).rets == old(self).rets,
            final(self).sp == old(self).sp,
            final(self).current_stack_size == old(self).current_stack_size,
    {
        self.ip = InstructionAddress(self.ip.0 + 1);
    }
}

/// Checks that a callee declaring `expected` arguments was given `got`.
///
/// The machine makes this check on every call of a function of the module,
/// on purpose: a compiler guarantees the arity of the callees it knows, and
/// the check turns a wrong arity on any other callee into `ArityError`
/// instead of a frame whose parameter window is wrong.
pub fn _check_arity(expected: usize, got: usize) -> (r: Result<(), ExecutionError>)
    ensures
        expected == got ==> r is Ok,
        expected != got ==> r == Err::<(), ExecutionError>(
            ExecutionError::ArityError { expected, got },
        ),
{
    if expected == got {
        Ok(())
    } else {
        Err(ExecutionError::ArityError { expected, got })
    }
}

/// Copies of the values above position `pos` of the stack.
fn call_args(stack: &Vec<Value>, pos: usize) -> (r: Vec<Value>)
    requires
        pos < stack@.len(),
    ensures
        vals(r@) == vals(stack@).subrange(pos + 1, stack@.len() as int),
{
    proof {
        vstd::std_specs::vec::axiom_spec_len(stack);
    }
    let mut args: Vec<Value> = Vec::new();
    let mut i: usize = pos + 1;
    while i < stack.len()
        invariant
            pos < i <= stack@.len(),
            vals(args@) == vals(stack@).subrange(pos + 1, i as int),
        decreases stack@.len() - i,
    {
        let v = copy_value(&stack[i]);
        proof {
            lemma_vals_push(args@, v);
        }
        args.push(v);
        i = i + 1;
        assert(vals(stack@).subrange(pos + 1, i as int) =~= vals(stack@).subrange(
            pos + 1,
            i - 1,
        ).push(val_of(stack@[i - 1])));
    }
    args
}

/// Resolves the callee of a call of arity `arity`: a function of the module
/// gives where to jump and the size of its local window; a native function is
/// run by the host on the arguments, and gives its value.
fn process_call<'m, H: NifHandler>(
    em: &mut ExecutionMachine<'m, H>,
    arity: CallArity,
) -> (r: Result<CallResult, ExecutionError>)
    requires
        old(em).wf(),
        callee_pos(old(em).state(), arity) >= old(em).sp + old(em).current_stack_size.0,
    ensures
        final(em).stack == old(em).stack,
        final(em).module == old(em).module,
        final(em).aborted == old(em).aborted,
        final(em).rets == old(em).rets,
        final(em).ip == old(em).ip,
        final(em).sp == old(em).sp,
        final(em).current_stack_size == old(em).current_stack_size,
        match old(em).state().stack[callee_pos(old(em).state(), arity)] {
            Val::Fun(ValueFun::Native(n)) => {
                let answer = final(em).native_calls@.last().2;
                &&& final(em).native_calls@ == old(em).native_calls@.push(
                    (n, call_window(old(em).state(), arity), answer),
                )
                &&& match answer {
                    Ok(v) => r is Ok && r->Ok_0 is Value && r->Ok_0->Value_0 == v,
                    Err(e) => r == Err::<CallResult, ExecutionError>(e),
                }
            },
            Val::Fun(ValueFun::Fun(f)) => final(em).host == old(em).host && final(em).native_calls
                == old(em).native_calls && match enter_spec(
                old(em).module,
                old(em).state(),
                f,
                arity,
            ) {
                Ok(s2) => r is Ok && r->Ok_0 is Jump && r->Ok_0->Jump_0.0 == s2.ip
                    && r->Ok_0->Jump_1.0 == s2.frame_size,
                Err(e) => r == Err::<CallResult, ExecutionError>(e),
            },
            v => final(em).host == old(em).host && final(em).native_calls == old(em).native_calls
                && r == Err::<CallResult, ExecutionError>(
                ExecutionError::ValueKindUnexpected {
                    value_expected: ValueKind::Fun,
                    value_got: val_kind(v),
                },
            ),
        },
{
    let pos = em.stack.len() - arity.0 as usize - 1;
    proof {
        lemma_kind(em.stack@[pos as int]);
    }
    let fun = match &em.stack[pos] {
        Value::Fun(f) => *f,
        other => {
            return Err(
                ExecutionError::ValueKindUnexpected {
                    value_expected: ValueKind::Fun,
                    value_got: other.kind(),
                },
            );
        },
    };
    match fun {
        ValueFun::Native(nif) => {
            let args = call_args(&em.stack, pos);
            assert(vals(args@) =~= call_window(old(em).state(), arity));
            let answer = em.host.call_nif(nif, args.as_slice());
            em.native_calls = Ghost(em.native_calls@.push((nif, vals(args@), answer)));
            match answer {
                Ok(v) => Ok(CallResult::Value(v)),
                Err(e) => Err(e),
            }
        },
        ValueFun::Fun(funid) => {
            if funid.0.0 as usize >= em.module.funs.len() {
                return Err(ExecutionError::InvalidBytecode { ip: em.ip.0 });
            }
            let call_def = em.module.funs[funid.0.0 as usize];
            _check_arity(call_def.arity.0 as usize, arity.0 as usize)?;
            Ok(CallResult::Jump(call_def.code_pos, call_def.stack_size))
        },
    }
}

/// Runs the instruction at the instruction pointer: `Ok(Some(v))` when a
/// `Ret` leaves the outermost frame with `v`, `Ok(None)` when the machine can
/// go on.
pub fn step<'m, H: NifHandler>(em: &mut ExecutionMachine<'m, H>) -> (r: Result<
    Option<Value>,
    ExecutionError,
>)
    requires
        old(em).wf(),
    ensures
        final(em).wf(),
        final(em).module == old(em).module,
        final(em).aborted == old(em).aborted,
        step_taken(
            old(em).module,
            old(em).state(),
            r,
            final(em).state(),
            old(em).native_calls@,
            final(em).native_calls@,
        ),
        !(step_spec(old(em).module, old(em).state()) is Native) ==> final(em).host == old(em).host,
{
    let ghost s0 = em.state();
    let ip = em.ip.0;
    if ip as usize >= em.module.code.len() {
        return Err(ExecutionError::InvalidBytecode { ip });
    }
    let instr = em.module.code[ip as usize];
    match instr {
        Instruction::PushLiteral(lit) => {
            if lit.0.0 as usize >= em.module.lits.len() {
                return Err(ExecutionError::InvalidBytecode { ip });
            }
            let v = literal_to_value(&em.module.lits[lit.0.0 as usize]);
            em.push_value(v);
            em.ip_next();
        },
        Instruction::FetchGlobal(global_id) => {
            if global_id.0.0 as usize >= em.module.globals.len() {
                return Err(ExecutionError::InvalidBytecode { ip });
            }
            let v = copy_value(&em.module.globals[global_id.0.0 as usize]);
            em.push_value(v);
            em.ip_next();
        },
        Instruction::FetchNif(nif_id) => {
            em.push_value(Value::Fun(ValueFun::Native(nif_id)));
            em.ip_next();
        },
        Instruction::FetchFun(fun_id) => {
            em.push_value(Value::Fun(ValueFun::Fun(fun_id)));
            em.ip_next();
        },
        Instruction::FetchStackLocal(local_bind) => {
            if local_bind.0 >= em.current_stack_size.0 {
                return Err(ExecutionError::InvalidBytecode { ip });
            }
            proof {
                vstd::std_specs::vec::axiom_spec_len(&em.stack);
            }
            let slot = em.sp + local_bind.0 as usize;
            let v = copy_value(&em.stack[slot]);
            em.push_value(v);
            em.ip_next();
        },
        Instruction::FetchStackParam(param_bind) => {
            if param_bind.0 as usize >= em.sp {
                return Err(ExecutionError::InvalidBytecode { ip });
            }
            let v = copy_value(&em.stack[em.sp - param_bind.0 as usize - 1]);
            em.push_value(v);
            em.ip_next();
        },
        Instruction::AccessField(expected_cid, idx) => {
            if em.stack.len() <= em.sp + em.current_stack_size.0 as usize {
                return Err(ExecutionError::InvalidBytecode { ip });
            }
            let val = em.pop_value();
            proof {
                lemma_kind(val);
            }
            let (got_cid, mut inner) = match val {
                Value::Struct(c, fields) => (c, fields),
                other => {
                    return Err(
                        ExecutionError::ValueKindUnexpected {
                            value_expected: ValueKind::Struct,
                            value_got: other.kind(),
                        },
                    );
                },
            };
            if got_cid != expected_cid {
                return Err(
                    ExecutionError::StructMismatch {
                        constr_expected: expected_cid,
                        constr_got: got_cid,
                    },
                );
            }
            proof {
                if let Val::Struct(_, fs) = val_of(val) {
                    assert(fs.len() == inner@.len());
                }
            }
            if expected_cid.0.0 as usize >= em.module.constrs.len()
                || inner.len() != em.module.constrs[expected_cid.0.0 as usize].field_count as usize {
                return Err(ExecutionError::InvalidBytecode { ip });
            }
            if idx as usize >= inner.len() {
                return Err(
                    ExecutionError::StructFieldOutOfBound {
                        constr: got_cid,
                        field_index: idx,
                        struct_len: inner.len(),
                    },
                );
            }
            let field = inner.swap_remove(idx as usize);
            em.push_value(field);
            em.ip_next();
        },
        Instruction::LocalBind(local_bind) => {
            if em.stack.len() <= em.sp + em.current_stack_size.0 as usize
                || local_bind.0 >= em.current_stack_size.0 {
                return Err(ExecutionError::InvalidBytecode { ip });
            }
            let val = em.pop_value();
            let slot = em.sp + local_bind.0 as usize;
            proof {
                lemma_vals_update(em.stack@, slot as int, val);
            }
            em.stack.set(slot, val);
            em.ip_next();
        },
        Instruction::IgnoreOne => {
            if em.stack.len() <= em.sp + em.current_stack_size.0 as usize {
                return Err(ExecutionError::InvalidBytecode { ip });
            }
            let _ = em.pop_value();
            em.ip_next();
        },
        Instruction::Call(arity) => {
            if em.stack.len() - (em.sp + em.current_stack_size.0 as usize) < arity.0 as usize + 1 {
                return Err(ExecutionError::InvalidBytecode { ip });
            }
            let val = match process_call(em, arity) {
                Ok(val) => val,
                Err(e) => {
                    return Err(e);
                },
            };
            match val {
                CallResult::Jump(fun_ip, local_stack_size) => {
                    em.rets.push(
                        CallFrame {
                            ret_ip: InstructionAddress(ip + 1),
                            sp: em.sp,
                            stack_size: em.current_stack_size,
                            arity,
                        },
                    );
                    em.set_frame(fun_ip, local_stack_size);
                        },
                CallResult::Value(nif_val) => {
                    em.truncate_stack(em.stack.len() - arity.0 as usize - 1);
                    em.push_value(nif_val);
                    em.ip_next();
                },
            }
        },
        Instruction::Jump(d) => {
            let target = ip as i64 + d.0 as i64;
            if target < 0 || target > u32::MAX as i64 {
                return Err(ExecutionError::InvalidBytecode { ip });
            }
            em.ip = InstructionAddress(target as u32);
        },
        Instruction::CondJump(d) => {
            if em.stack.len() <= em.sp + em.current_stack_size.0 as usize {
                return Err(ExecutionError::InvalidBytecode { ip });
            }
            let val = em.pop_value();
            proof {
                lemma_kind(val);
            }
            match val {
                Value::Bool(true) => em.ip_next(),
                Value::Bool(false) => {
                    let target = ip as i64 + d.0 as i64;
                    if target < 0 || target > u32::MAX as i64 {
                        return Err(ExecutionError::InvalidBytecode { ip });
                    }
                    em.ip = InstructionAddress(target as u32);
                        },
                other => {
                    return Err(
                        ExecutionError::ValueKindUnexpected {
                            value_expected: ValueKind::Bool,
                            value_got: other.kind(),
                        },
                    );
                },
            }
        },
        Instruction::Ret => {
            if em.stack.len() <= em.sp + em.current_stack_size.0 as usize {
                return Err(ExecutionError::InvalidBytecode { ip });
            }
            let n = em.rets.len();
            if n == 0 {
                let val = em.pop_value();
                return Ok(Some(val));
            }
            let frame = em.rets[n - 1];
            let popped = frame.arity.0 as usize + 1;
            if em.sp < popped || frame.stack_size.0 as usize > em.sp - popped || frame.sp > em.sp
                - popped - frame.stack_size.0 as usize {
                return Err(ExecutionError::InvalidBytecode { ip });
            }
            let val = em.pop_value();
            em.rets.pop();
            em.truncate_stack(em.sp - popped);
            em.push_value(val);
            em.sp = frame.sp;
            em.current_stack_size = frame.stack_size;
            em.ip = frame.ret_ip;
            assert(em.rets@ =~= s0.rets.drop_last());
            assert(s0.stack.drop_last().subrange(0, s0.sp - popped) =~= s0.stack.subrange(
                0,
                s0.sp - popped,
            ));
        },
    }
    Ok(None)
}

/// Only a `Ret` with an empty return stack ends the program, with the value
/// on top of the stack.
pub proof fn lemma_done_is_outer_ret(m: &crate::bytecode::CompiledModule, s: State)
    ensures
        step_spec(m, s) is Done ==> {
            &&& s.ip < m.code@.len()
            &&& m.code@[s.ip as int] == crate::bytecode::Instruction::Ret
            &&& s.rets.len() == 0
            &&& step_spec(m, s)->Done_0 == with_stack(s, s.stack.drop_last())
            &&& step_spec(m, s)->Done_1 == s.stack.last()
        },
{
}

/// Where the program started in `s` stands after at most `fuel`
/// instructions, `log` answering its native calls in order: the value or the
/// error it ends with, `Next` of the state reached when the fuel ran out, or
/// `Native` at a native call that `log` does not answer.
pub open spec fn run_log(
    m: &crate::bytecode::CompiledModule,
    s: State,
    log: Seq<NativeCall>,
    fuel: nat,
) -> Transition
    decreases fuel,
{
    if fuel == 0 {
        Transition::Next(s)
    } else {
        match step_spec(m, s) {
            Transition::Next(t) => run_log(m, t, log, (fuel - 1) as nat),
            Transition::Native(n, a) => if log.len() > 0 && log[0].0 == n && log[0].1 == call_window(
                s,
                a,
            ) {
                match nif_return(s, a, log[0].2) {
                    Transition::Next(t) => run_log(m, t, log.drop_first(), (fuel - 1) as nat),
                    other => other,
                }
            } else {
                Transition::Native(n, a)
            },
            other => other,
        }
    }
}

/// The number of ticks a driver runs before it gives up.
pub open spec fn tick_budget() -> nat {
    u64::MAX as nat
}

/// `r` and `after` are what a driver returns and leaves when its run ends in
/// `t`: the value, the error, or `Abort` when the ticks ran out.
pub open spec fn run_outcome(t: Transition, r: Result<Value, ExecutionError>, after: State) -> bool {
    match t {
        Transition::Done(s2, v) => r is Ok && val_of(r->Ok_0) == v && after == s2,
        Transition::Fail(e) => r == Err::<Value, ExecutionError>(e),
        Transition::Next(s2) => r == Err::<Value, ExecutionError>(ExecutionError::Abort)
            && after == s2,
        Transition::Native(_, _) => false,
    }
}

/// The native calls recorded after the first `n`.
pub open spec fn calls_since(log: Seq<NativeCall>, n: int) -> Seq<NativeCall> {
    log.subrange(n, log.len() as int)
}

/// The local window of a state lies within its stack, which a machine can
/// hold.
pub open spec fn window_ok(s: State) -> bool {
    0 <= s.sp && s.sp + s.frame_size <= s.stack.len() <= usize::MAX
}

/// Nothing of state `s` works below stack position `b`: its window starts
/// at `b` or above, and so do the windows its return frames restore.
pub open spec fn above(s: State, b: int) -> bool {
    &&& window_ok(s)
    &&& 0 <= b <= s.sp
    &&& forall|k: int| 0 <= k < s.rets.len() ==> b <= #[trigger] s.rets[k].sp
}

/// An instruction that leads from `s` to a next state `t` keeps `above` and
/// the stack below `b`.
proof fn lemma_step_keeps_below(
    m: &crate::bytecode::CompiledModule,
    s: State,
    t: State,
    b: int,
    res: Result<Value, ExecutionError>,
)
    requires
        m.wf(),
        above(s, b),
        t.stack.len() <= usize::MAX,
        step_spec(m, s) is Native ==> nif_return(s, step_spec(m, s)->Native_1, res)
            == Transition::Next(t),
        !(step_spec(m, s) is Native) ==> step_spec(m, s) == Transition::Next(t),
    ensures
        above(t, b),
        t.stack.subrange(0, b) == s.stack.subrange(0, b),
{
    let instr = m.code@[s.ip as int];
    if let Transition::Native(_, a) = step_spec(m, s) {
        assert(instr is Call);
        assert(s.stack.len() - a.0 - 1 >= s.sp + s.frame_size);
    } else if instr is Ret {
        assert(s.rets.len() > 0);
        assert(b <= s.rets[s.rets.len() - 1].sp);
        assert(forall|k: int| 0 <= k < t.rets.len() ==> t.rets[k] == s.rets[k]);
    } else if instr is Call {
        assert(forall|k: int| 0 <= k < s.rets.len() ==> t.rets[k] == s.rets[k]);
    }
    assert(t.stack.subrange(0, b) =~= s.stack.subrange(0, b));
}

pub open spec fn finished<'m, H>(em: &ExecutionMachine<'m, H>) -> bool {
    em.rets@.len() == 0
}

/// One tick of the driver: an abort request stops the machine before any
/// instruction; otherwise one instruction runs.
pub fn tick<'m, H: NifHandler>(em: &mut ExecutionMachine<'m, H>) -> (r: Result<
    Option<Value>,
    ExecutionError,
>)
    requires
        old(em).wf(),
    ensures
        final(em).wf(),
        final(em).module == old(em).module,
        final(em).aborted == old(em).aborted,
        old(em).aborted ==> r == Err::<Option<Value>, ExecutionError>(ExecutionError::Abort)
            && *final(em) == *old(em),
        !old(em).aborted ==> step_taken(
            old(em).module,
            old(em).state(),
            r,
            final(em).state(),
            old(em).native_calls@,
            final(em).native_calls@,
        ),
{
    if em.aborted() {
        return Err(ExecutionError::Abort);
    }
    step(em)
}

/// Runs ticks until the program yields its value or an error comes. The
/// run is cancelled as if aborted after `u64::MAX` ticks.
pub fn exec_loop<'m, H: NifHandler>(em: &mut ExecutionMachine<'m, H>) -> (r: Result<
    Value,
    ExecutionError,
>)
    requires
        old(em).wf(),
    ensures
        final(em).wf(),
        final(em).module == old(em).module,
        final(em).aborted == old(em).aborted,
        old(em).aborted ==> r == Err::<Value, ExecutionError>(ExecutionError::Abort)
            && *final(em) == *old(em),
        old(em).native_calls@.len() <= final(em).native_calls@.len(),
        final(em).native_calls@.subrange(0, old(em).native_calls@.len() as int)
            == old(em).native_calls@,
        !old(em).aborted ==> run_outcome(
            run_log(
                final(em).module,
                old(em).state(),
                calls_since(final(em).native_calls@, old(em).native_calls@.len() as int),
                tick_budget(),
            ),
            r,
            final(em).state(),
        ),
        r is Ok ==> finished(final(em)) && forall|b: int| #[trigger]
            above(old(em).state(), b) ==> final(em).state().stack.len() >= b
                && final(em).state().stack.subrange(0, b) == old(em).state().stack.subrange(0, b),
{
    let ghost s0 = em.state();
    let ghost log0 = em.native_calls@;
    let ghost m = em.module;
    proof {
        vstd::std_specs::vec::axiom_spec_len(&em.stack);
        assert forall|l: Seq<NativeCall>| #[trigger]
            run_log(m, s0, calls_since(em.native_calls@, log0.len() as int) + l, tick_budget())
                == run_log(m, em.state(), l, tick_budget()) by {
            assert(calls_since(em.native_calls@, log0.len() as int) + l =~= l);
        }
    }
    let mut fuel: u64 = u64::MAX;
    while fuel > 0
        invariant
            em.wf(),
            em.module == m,
            m == old(em).module,
            em.aborted == old(em).aborted,
            old(em).aborted ==> *em == *old(em),
            s0 == old(em).state(),
            log0 == old(em).native_calls@,
            log0.len() <= em.native_calls@.len(),
            em.native_calls@.subrange(0, log0.len() as int) == log0,
            em.state().stack.len() <= usize::MAX,
            forall|l: Seq<NativeCall>| #[trigger]
                run_log(m, s0, calls_since(em.native_calls@, log0.len() as int) + l, tick_budget())
                    == run_log(m, em.state(), l, fuel as nat),
            forall|b: int| #[trigger]
                above(s0, b) ==> above(em.state(), b) && em.state().stack.subrange(0, b)
                    == s0.stack.subrange(0, b),
        decreases fuel,
    {
        let ghost s = em.state();
        let ghost log = em.native_calls@;
        let r = tick(em);
        proof {
            vstd::std_specs::vec::axiom_spec_len(&em.stack);
            let new = calls_since(log, log0.len() as int);
            let new2 = calls_since(em.native_calls@, log0.len() as int);
            assert(em.native_calls@.subrange(0, log0.len() as int) =~= log0) by {
                if step_spec(m, s) is Native && !old(em).aborted {
                    assert(em.native_calls@.subrange(0, log0.len() as int) =~= log.subrange(
                        0,
                        log0.len() as int,
                    ));
                }
            }
            if !old(em).aborted {
                if let Transition::Native(n, a) = step_spec(m, s) {
                    let c = em.native_calls@.last();
                    assert(new2 =~= new.push(c));
                    assert forall|l: Seq<NativeCall>| #[trigger]
                        run_log(m, s0, new2 + l, tick_budget()) == run_log(
                            m,
                            s,
                            seq![c] + l,
                            fuel as nat,
                        ) by {
                        assert(new2 + l =~= new + (seq![c] + l));
                    }
                    assert forall|l: Seq<NativeCall>| #[trigger]
                        run_log(m, s, seq![c] + l, fuel as nat) == match nif_return(s, a, c.2) {
                            Transition::Next(t) => run_log(m, t, l, (fuel - 1) as nat),
                            other => other,
                        } by {
                        assert((seq![c] + l).drop_first() =~= l);
                        assert((seq![c] + l)[0] == c);
                    }
                    if r is Ok {
                        assert forall|b: int| #[trigger]
                            above(s0, b) implies above(em.state(), b) && em.state().stack.subrange(
                                0,
                                b,
                            ) == s0.stack.subrange(0, b) by {
                            lemma_step_keeps_below(m, s, em.state(), b, c.2);
                        }
                    } else {
                        assert(run_log(m, s0, new2 + seq![], tick_budget()) == run_log(
                            m,
                            s,
                            seq![c] + seq![],
                            fuel as nat,
                        ));
                        assert(new2 + seq![] =~= new2);
                    }
                } else {
                    assert(new2 =~= new);
                    if r == Ok::<Option<Value>, ExecutionError>(None) {
                        assert forall|b: int| #[trigger]
                            above(s0, b) implies above(em.state(), b) && em.state().stack.subrange(
                                0,
                                b,
                            ) == s0.stack.subrange(0, b) by {
                            lemma_step_keeps_below(m, s, em.state(), b, Err(ExecutionError::Abort));
                        }
                    } else {
                        assert(run_log(m, s0, new2 + seq![], tick_budget()) == run_log(
                            m,
                            s,
                            seq![],
                            fuel as nat,
                        ));
                        assert(new2 + seq![] =~= new2);
                        if r is Ok {
                            lemma_done_is_outer_ret(m, s);
                            assert forall|b: int| #[trigger]
                                above(s0, b) implies em.state().stack.len() >= b
                                    && em.state().stack.subrange(0, b) == s0.stack.subrange(
                                    0,
                                    b,
                                ) by {
                                assert(em.state().stack.subrange(0, b) =~= s.stack.subrange(0, b));
                            }
                        }
                    }
                }
            }
        }
        match r {
            Err(e) => {
                return Err(e);
            },
            Ok(None) => {},
            Ok(Some(v)) => {
                return Ok(v);
            },
        }
        fuel = fuel - 1;
    }
    proof {
        let new = calls_since(em.native_calls@, log0.len() as int);
        assert(run_log(m, s0, new + seq![], tick_budget()) == run_log(m, em.state(), seq![], 0));
        assert(new + seq![] =~= new);
    }
    Err(ExecutionError::Abort)
}

/// Resumes a suspended run; there is none once the return stack is empty.
pub fn exec_continue<'m, H: NifHandler>(em: &mut ExecutionMachine<'m, H>) -> (r: Result<
    Value,
    ExecutionError,
>)
    requires
        old(em).wf(),
    ensures
        final(em).wf(),
        final(em).module == old(em).module,
        final(em).aborted == old(em).aborted,
        finished(old(em)) ==> r == Err::<Value, ExecutionError>(ExecutionError::ExecutionFinished)
            && *final(em) == *old(em),
        !finished(old(em)) && old(em).aborted ==> r == Err::<Value, ExecutionError>(
            ExecutionError::Abort,
        ) && *final(em) == *old(em),
        old(em).native_calls@.len() <= final(em).native_calls@.len(),
        !finished(old(em)) && !old(em).aborted ==> run_outcome(
            run_log(
                final(em).module,
                old(em).state(),
                calls_since(final(em).native_calls@, old(em).native_calls@.len() as int),
                tick_budget(),
            ),
            r,
            final(em).state(),
        ),
{
    if em.rets.len() == 0 {
        return Err(ExecutionError::ExecutionFinished);
    }
    exec_loop(em)
}

/// The state `s` with the callee `f` and the arguments `args` pushed, and
/// the return stack empty, as it is at program entry.
pub open spec fn entry_state(s: State, f: FunId, args: Seq<Value>) -> State {
    State { stack: s.stack.push(Val::Fun(ValueFun::Fun(f))) + vals(args), rets: Seq::empty(), ..s }
}

/// Sets up the entry frame of a call of function `call` on `args`: the
/// callee and the arguments pushed, the function's local window reserved, and
/// the return stack emptied, so that its `Ret` ends the program.
pub fn exec_init<'m, H: NifHandler>(
    em: &mut ExecutionMachine<'m, H>,
    call: FunId,
    args: &[Value],
) -> (r: Result<(), ExecutionError>)
    requires
        old(em).wf(),
    ensures
        final(em).wf(),
        final(em).module == old(em).module,
        final(em).aborted == old(em).aborted,
        final(em).host == old(em).host,
        final(em).native_calls == old(em).native_calls,
        args@.len() > u8::MAX ==> r == Err::<(), ExecutionError>(
            ExecutionError::ArityOverflow { got: args@.len() as usize },
        ) && *final(em) == *old(em),
        args@.len() <= u8::MAX ==> match enter_spec(
            old(em).module,
            entry_state(old(em).state(), call, args@),
            call,
            CallArity(args@.len() as u8),
        ) {
            Err(e) => r == Err::<(), ExecutionError>(e),
            Ok(s2) => r is Ok && final(em).state() == s2,
        },
{
    if args.len() > u8::MAX as usize {
        return Err(ExecutionError::ArityOverflow { got: args.len() });
    }
    let arity = CallArity(args.len() as u8);
    let ghost s0 = em.state();
    em.push_value(Value::Fun(ValueFun::Fun(call)));
    let ghost s1 = em.state();
    let mut i: usize = 0;
    while i < args.len()
        invariant
            i <= args@.len(),
            em.wf(),
            em.module == old(em).module,
            em.aborted == old(em).aborted,
            em.host == old(em).host,
            em.native_calls == old(em).native_calls,
            em.rets == old(em).rets,
            em.ip == old(em).ip,
            em.sp == old(em).sp,
            em.current_stack_size == old(em).current_stack_size,
            em.stack@.len() == old(em).stack@.len() + 1 + i,
            s1 == with_stack(s0, s0.stack.push(Val::Fun(ValueFun::Fun(call)))),
            s0 == old(em).state(),
            em.state() == with_stack(s1, s1.stack + vals(args@.subrange(0, i as int))),
        decreases args@.len() - i,
    {
        let v = copy_value(&args[i]);
        em.push_value(v);
        i = i + 1;
        assert(s1.stack + vals(args@.subrange(0, i as int)) =~= s1.stack + vals(
            args@.subrange(0, i - 1),
        ).push(val_of(args@[i - 1])));
    }
    em.rets.clear();
    assert(args@.subrange(0, args@.len() as int) =~= args@);
    assert(em.state() == entry_state(s0, call, args@));
    assert(em.state().stack[callee_pos(em.state(), arity)] == Val::Fun(ValueFun::Fun(call)));
    match process_call(em, arity) {
        Ok(CallResult::Jump(ip, local)) => {
            em.set_frame(ip, local);
            Ok(())
        },
        Ok(CallResult::Value(_)) => Err(ExecutionError::InvalidBytecode { ip: em.ip.0 }),
        Err(e) => Err(e),
    }
}

/// Calls function `call` of the module on `args` and runs the program to its
/// value. A run that returns leaves the stack as it found it, with the value
/// pushed, and the caller's window restored.
pub fn exec<'m, H: NifHandler>(
    em: &mut ExecutionMachine<'m, H>,
    call: FunId,
    args: &[Value],
) -> (r: Result<Value, ExecutionError>)
    requires
        old(em).wf(),
    ensures
        final(em).wf(),
        final(em).module == old(em).module,
        final(em).aborted == old(em).aborted,
        old(em).native_calls@.len() <= final(em).native_calls@.len(),
        args@.len() > u8::MAX ==> r == Err::<Value, ExecutionError>(
            ExecutionError::ArityOverflow { got: args@.len() as usize },
        ) && *final(em) == *old(em),
        args@.len() <= u8::MAX ==> match enter_spec(
            old(em).module,
            entry_state(old(em).state(), call, args@),
            call,
            CallArity(args@.len() as u8),
        ) {
            Err(e) => r == Err::<Value, ExecutionError>(e),
            Ok(s2) => (old(em).aborted ==> r == Err::<Value, ExecutionError>(ExecutionError::Abort)
                && final(em).state() == s2) && (!old(em).aborted ==> match run_log(
                old(em).module,
                s2,
                calls_since(final(em).native_calls@, old(em).native_calls@.len() as int),
                tick_budget(),
            ) {
                Transition::Done(_, v) => r is Ok && val_of(r->Ok_0) == v,
                Transition::Fail(e) => r == Err::<Value, ExecutionError>(e),
                Transition::Next(s3) => r == Err::<Value, ExecutionError>(ExecutionError::Abort)
                    && final(em).state() == s3,
                Transition::Native(_, _) => false,
            }),
        },
        r is Ok ==> {
            &&& vals(final(em).stack@) == vals(old(em).stack@).push(val_of(r->Ok_0))
            &&& final(em).rets@.len() == 0
            &&& final(em).sp == old(em).sp
            &&& final(em).current_stack_size == old(em).current_stack_size
        },
{
    let base = em.stack.len();
    let sp = em.sp;
    let frame_size = em.current_stack_size;
    let ghost s0 = em.state();
    match exec_init(em, call, args) {
        Ok(()) => {},
        Err(e) => {
            return Err(e);
        },
    }
    proof {
        vstd::std_specs::vec::axiom_spec_len(&em.stack);
        assert(above(em.state(), base as int));
    }
    let ghost s2 = em.state();
    let v = exec_loop(em)?;
    proof {
        assert(above(s2, base as int));
        assert(s2.stack.subrange(0, base as int) =~= s0.stack);
    }
    em.truncate_stack(base);
    let out = copy_value(&v);
    em.push_value(v);
    em.sp = sp;
    em.current_stack_size = frame_size;
    Ok(out)
}

} // verus!
