use vstd::prelude::*;

use crate::bytecode::{CallArity, CompiledModule, Instruction, ParamBindIndex};
use crate::error::ExecutionError;
use crate::exec::{entry_state, run_log, tick_budget, window_ok};
use crate::id::{ConstrId, FunId, LitId, ValueFun};
use crate::machine::{enter_spec, step_spec, val_kind, vals, State, Transition};
use crate::nifs::literal_value;
use crate::value::{val_of, Val, Value, ValueKind};

verus! {

/// A call that enters a function of the module passed it as many arguments
/// as the function declares.
pub proof fn call_matches_arity(m: &CompiledModule, s: State, a: CallArity, f: FunId)
    requires
        s.ip < m.code@.len(),
        m.code@[s.ip as int] == Instruction::Call(a),
        0 <= s.stack.len() - a.0 - 1,
        s.stack[s.stack.len() - a.0 - 1] == Val::Fun(ValueFun::Fun(f)),
        step_spec(m, s) is Next,
    ensures
        f.0.0 < m.funs@.len(),
        m.funs@[f.0.0 as int].arity == a,
{
}

/// A field access that succeeds found a struct of the expected constructor,
/// with as many fields as the constructor declares, and the field in range.
pub proof fn access_field_checked(m: &CompiledModule, s: State, c: ConstrId, i: u32)
    requires
        window_ok(s),
        s.ip < m.code@.len(),
        m.code@[s.ip as int] == Instruction::AccessField(c, i),
        step_spec(m, s) is Next,
    ensures
        s.stack.len() > 0,
        s.stack.last() is Struct,
        s.stack.last()->Struct_0 == c,
        c.0.0 < m.constrs@.len(),
        s.stack.last()->Struct_1.len() == m.constrs@[c.0.0 as int].field_count,
        i < s.stack.last()->Struct_1.len(),
{
}

/// Pushing a literal and returning from the outermost frame yields the
/// literal's value.
pub proof fn literal_round_trip(m: &CompiledModule, s: State, l: LitId)
    requires
        m.wf(),
        window_ok(s),
        s.ip + 1 < m.code@.len(),
        m.code@[s.ip as int] == Instruction::PushLiteral(l),
        m.code@[s.ip + 1] == Instruction::Ret,
        l.0.0 < m.lits@.len(),
        s.rets.len() == 0,
    ensures
        step_spec(m, s) is Next,
        step_spec(m, step_spec(m, s)->Next_0) is Done,
        step_spec(m, step_spec(m, s)->Next_0)->Done_1 == val_of(
            literal_value(m.lits@[l.0.0 as int]),
        ),
        run_log(m, s, Seq::empty(), tick_budget()) is Done,
        run_log(m, s, Seq::empty(), tick_budget())->Done_1 == val_of(literal_value(m.lits@[l.0.0 as int])),
{
    let t = step_spec(m, s)->Next_0;
    assert(run_log(m, s, Seq::empty(), tick_budget()) == run_log(m, t, Seq::empty(), (tick_budget() - 1) as nat));
    assert(run_log(m, t, Seq::empty(), (tick_budget() - 1) as nat) == step_spec(m, t));
}

/// Calling a function that returns its parameter at offset `p` yields the
/// argument that offset addresses: offsets count back from the last argument.
pub proof fn call_round_trip(
    m: &CompiledModule,
    s: State,
    f: FunId,
    args: Seq<Value>,
    p: ParamBindIndex,
)
    requires
        m.wf(),
        window_ok(s),
        args.len() <= u8::MAX,
        p.0 < args.len(),
        s.rets.len() == 0,
        enter_spec(m, entry_state(s, f, args), f, CallArity(args.len() as u8)) is Ok,
        ({
            let s2 = enter_spec(m, entry_state(s, f, args), f, CallArity(args.len() as u8))->Ok_0;
            &&& s2.ip + 1 < m.code@.len()
            &&& m.code@[s2.ip as int] == Instruction::FetchStackParam(p)
            &&& m.code@[s2.ip + 1] == Instruction::Ret
        }),
    ensures
        ({
            let s2 = enter_spec(m, entry_state(s, f, args), f, CallArity(args.len() as u8))->Ok_0;
            &&& step_spec(m, s2) is Next
            &&& step_spec(m, step_spec(m, s2)->Next_0) is Done
            &&& step_spec(m, step_spec(m, s2)->Next_0)->Done_1 == val_of(
                args[args.len() - 1 - p.0],
            )
            &&& run_log(m, s2, Seq::empty(), tick_budget()) is Done
            &&& run_log(m, s2, Seq::empty(), tick_budget())->Done_1 == val_of(args[args.len() - 1 - p.0])
        }),
{
    let s1 = entry_state(s, f, args);
    let s2 = enter_spec(m, s1, f, CallArity(args.len() as u8))->Ok_0;
    assert(s2.sp == s.stack.len() + 1 + args.len());
    assert(s2.stack[s2.sp - p.0 - 1] == vals(args)[args.len() - 1 - p.0]);
    let t = step_spec(m, s2)->Next_0;
    assert(run_log(m, s2, Seq::empty(), tick_budget()) == run_log(m, t, Seq::empty(), (tick_budget() - 1) as nat));
    assert(run_log(m, t, Seq::empty(), (tick_budget() - 1) as nat) == step_spec(m, t));
}

/// Accessing field `i` of a struct built by constructor `c` gives its `i`-th
/// field, and leaves the rest of the stack as it was.
pub proof fn access_field_round_trip(m: &CompiledModule, s: State, c: ConstrId, i: u32)
    requires
        m.wf(),
        window_ok(s),
        s.ip < m.code@.len(),
        m.code@[s.ip as int] == Instruction::AccessField(c, i),
        s.stack.len() > s.sp + s.frame_size,
        s.stack.last() is Struct,
        s.stack.last()->Struct_0 == c,
        c.0.0 < m.constrs@.len(),
        s.stack.last()->Struct_1.len() == m.constrs@[c.0.0 as int].field_count,
        i < s.stack.last()->Struct_1.len(),
    ensures
        step_spec(m, s) is Next,
        step_spec(m, s)->Next_0.stack == s.stack.drop_last().push(
            s.stack.last()->Struct_1[i as int],
        ),
{
}

/// A struct of another constructor fails the access with a mismatch, whatever
/// the field index: the constructor is checked first.
pub proof fn access_field_tag_first(m: &CompiledModule, s: State, c: ConstrId, i: u32)
    requires
        s.ip < m.code@.len(),
        m.code@[s.ip as int] == Instruction::AccessField(c, i),
        s.stack.len() > s.sp + s.frame_size,
        s.stack.last() is Struct,
        s.stack.last()->Struct_0 != c,
    ensures
        step_spec(m, s) == Transition::Fail(
            ExecutionError::StructMismatch {
                constr_expected: c,
                constr_got: s.stack.last()->Struct_0,
            },
        ),
{
}

/// A conditional jump on anything but a boolean fails with a kind error.
pub proof fn cond_jump_needs_bool(m: &CompiledModule, s: State, d: crate::bytecode::InstructionDiff)
    requires
        s.ip < m.code@.len(),
        m.code@[s.ip as int] == Instruction::CondJump(d),
        s.stack.len() > s.sp + s.frame_size,
        !(s.stack.last() is Bool),
    ensures
        step_spec(m, s) == Transition::Fail(
            ExecutionError::ValueKindUnexpected {
                value_expected: ValueKind::Bool,
                value_got: val_kind(s.stack.last()),
            },
        ),
{
}

} // verus!
