use werbolg::{
    exec, exec_continue, exec_init, tick, BuiltinNifs, CallArity, CompiledModule, ConstrDef,
    ConstrId,
    ExecutionError, ExecutionMachine, FunDef, FunId, GlobalId, Id, Instruction,
    InstructionAddress, InstructionDiff, LitId, LocalBindIndex, LocalStackSize, MyLiteral, NifId,
    ParamBindIndex, Value, ValueKind, NIF_BOOL_EQ, NIF_EXPECT_INT, NIF_INT_EQ,
};

fn fun(code_pos: u32, stack_size: u32, arity: u8) -> FunDef {
    FunDef {
        code_pos: InstructionAddress(code_pos),
        stack_size: LocalStackSize(stack_size),
        arity: CallArity(arity),
    }
}

fn module(code: Vec<Instruction>, lits: Vec<MyLiteral>, funs: Vec<FunDef>) -> CompiledModule {
    CompiledModule { code, lits, funs, constrs: vec![], globals: vec![] }
}

fn lit(n: u32) -> Instruction {
    Instruction::PushLiteral(LitId(Id(n)))
}

fn run(m: &CompiledModule) -> Result<Value, ExecutionError> {
    let mut em = ExecutionMachine::new(m, BuiltinNifs);
    exec(&mut em, FunId(Id(0)), &[])
}

fn pair() -> Value {
    Value::Struct(ConstrId(Id(0)), vec![Value::Integral(10), Value::Integral(20)])
}

#[test]
fn constant_program() {
    let m = module(vec![lit(0), Instruction::Ret], vec![MyLiteral::Int(7)], vec![fun(0, 0, 0)]);
    assert_eq!(run(&m), Ok(Value::Integral(7)));
}

#[test]
fn zero_arity_entry_terminates_cleanly() {
    let m = module(vec![lit(0), Instruction::Ret], vec![MyLiteral::Bool(true)], vec![fun(0, 0, 0)]);
    let mut em = ExecutionMachine::new(&m, BuiltinNifs);
    assert_eq!(exec(&mut em, FunId(Id(0)), &[]), Ok(Value::Bool(true)));
    assert!(em.rets.is_empty());
}

#[test]
fn boolean_nif() {
    let m = module(
        vec![
            Instruction::FetchNif(NifId(Id(NIF_BOOL_EQ))),
            lit(0),
            lit(0),
            Instruction::Call(CallArity(2)),
            Instruction::Ret,
        ],
        vec![MyLiteral::Bool(true)],
        vec![fun(0, 0, 0)],
    );
    assert_eq!(run(&m), Ok(Value::Bool(true)));
}

#[test]
fn nif_error_is_propagated() {
    let m = module(
        vec![
            Instruction::FetchNif(NifId(Id(NIF_EXPECT_INT))),
            lit(0),
            lit(1),
            Instruction::Call(CallArity(2)),
            Instruction::Ret,
        ],
        vec![MyLiteral::Int(1), MyLiteral::Int(2)],
        vec![fun(0, 0, 0)],
    );
    assert_eq!(run(&m), Err(ExecutionError::AssertionFailed));
}

#[test]
fn int_nif_result_replaces_call() {
    let m = module(
        vec![
            Instruction::FetchNif(NifId(Id(NIF_INT_EQ))),
            lit(0),
            lit(1),
            Instruction::Call(CallArity(2)),
            Instruction::Ret,
        ],
        vec![MyLiteral::Int(1), MyLiteral::Int(2)],
        vec![fun(0, 0, 0)],
    );
    let mut em = ExecutionMachine::new(&m, BuiltinNifs);
    assert_eq!(exec(&mut em, FunId(Id(0)), &[]), Ok(Value::Bool(false)));
    assert_eq!(em.stack.len(), 1);
}

#[test]
fn unknown_nif() {
    let m = module(
        vec![Instruction::FetchNif(NifId(Id(99))), Instruction::Call(CallArity(0)), Instruction::Ret],
        vec![],
        vec![fun(0, 0, 0)],
    );
    assert_eq!(run(&m), Err(ExecutionError::UnknownNif { nif: NifId(Id(99)) }));
}

#[test]
fn conditional() {
    let m = module(
        vec![
            lit(0),
            Instruction::CondJump(InstructionDiff(3)),
            lit(1),
            Instruction::Jump(InstructionDiff(2)),
            lit(2),
            Instruction::Ret,
        ],
        vec![MyLiteral::Bool(false), MyLiteral::Int(1), MyLiteral::Int(2)],
        vec![fun(0, 0, 0)],
    );
    assert_eq!(run(&m), Ok(Value::Integral(2)));
}

#[test]
fn conditional_true_branch() {
    let m = module(
        vec![
            lit(0),
            Instruction::CondJump(InstructionDiff(3)),
            lit(1),
            Instruction::Jump(InstructionDiff(2)),
            lit(2),
            Instruction::Ret,
        ],
        vec![MyLiteral::Bool(true), MyLiteral::Int(1), MyLiteral::Int(2)],
        vec![fun(0, 0, 0)],
    );
    assert_eq!(run(&m), Ok(Value::Integral(1)));
}

#[test]
fn cond_jump_on_non_boolean() {
    let m = module(
        vec![lit(0), Instruction::CondJump(InstructionDiff(2)), Instruction::Ret],
        vec![MyLiteral::Int(1)],
        vec![fun(0, 0, 0)],
    );
    assert_eq!(
        run(&m),
        Err(ExecutionError::ValueKindUnexpected {
            value_expected: ValueKind::Bool,
            value_got: ValueKind::Integral,
        })
    );
}

#[test]
fn function_call_with_parameter() {
    let m = module(
        vec![
            Instruction::FetchFun(FunId(Id(1))),
            lit(0),
            Instruction::Call(CallArity(1)),
            Instruction::Ret,
            Instruction::FetchStackParam(ParamBindIndex(0)),
            Instruction::Ret,
        ],
        vec![MyLiteral::Int(42)],
        vec![fun(0, 0, 0), fun(4, 0, 1)],
    );
    let mut em = ExecutionMachine::new(&m, BuiltinNifs);
    assert_eq!(exec(&mut em, FunId(Id(0)), &[]), Ok(Value::Integral(42)));
    assert!(em.rets.is_empty());
    assert_eq!(em.stack, vec![Value::Integral(42)]);
}

#[test]
fn call_round_trip_of_entry_arguments() {
    // offset 0 is the last argument, offset 2 the first of three
    let code = vec![Instruction::FetchStackParam(ParamBindIndex(2)), Instruction::Ret];
    let m = module(code, vec![], vec![fun(0, 0, 3)]);
    let args = [Value::Integral(1), Value::Bool(false), Value::Integral(3)];
    let mut em = ExecutionMachine::new(&m, BuiltinNifs);
    assert_eq!(exec(&mut em, FunId(Id(0)), &args), Ok(Value::Integral(1)));
    let code = vec![Instruction::FetchStackParam(ParamBindIndex(0)), Instruction::Ret];
    let m = module(code, vec![], vec![fun(0, 0, 3)]);
    let mut em = ExecutionMachine::new(&m, BuiltinNifs);
    assert_eq!(exec(&mut em, FunId(Id(0)), &args), Ok(Value::Integral(3)));
}

#[test]
fn literal_round_trip() {
    let m = module(vec![lit(1), Instruction::Ret], vec![MyLiteral::Int(3), MyLiteral::Bool(false)], vec![fun(0, 0, 0)]);
    assert_eq!(run(&m), Ok(werbolg::literal_to_value(&MyLiteral::Bool(false))));
}

#[test]
fn struct_access() {
    let mut m = module(
        vec![
            Instruction::FetchGlobal(GlobalId(Id(0))),
            Instruction::AccessField(ConstrId(Id(0)), 1),
            Instruction::Ret,
        ],
        vec![],
        vec![fun(0, 0, 0)],
    );
    m.globals = vec![pair()];
    m.constrs = vec![ConstrDef { field_count: 2 }];
    assert_eq!(run(&m), Ok(Value::Integral(20)));
}

#[test]
fn struct_access_first_field() {
    let mut m = module(
        vec![
            Instruction::FetchGlobal(GlobalId(Id(0))),
            Instruction::AccessField(ConstrId(Id(0)), 0),
            Instruction::Ret,
        ],
        vec![],
        vec![fun(0, 0, 0)],
    );
    m.globals = vec![pair()];
    m.constrs = vec![ConstrDef { field_count: 2 }];
    assert_eq!(run(&m), Ok(Value::Integral(10)));
}

#[test]
fn struct_mismatch_checked_before_bound() {
    let mut m = module(
        vec![
            Instruction::FetchGlobal(GlobalId(Id(0))),
            Instruction::AccessField(ConstrId(Id(1)), 5),
            Instruction::Ret,
        ],
        vec![],
        vec![fun(0, 0, 0)],
    );
    m.globals = vec![pair()];
    m.constrs = vec![ConstrDef { field_count: 2 }];
    assert_eq!(
        run(&m),
        Err(ExecutionError::StructMismatch {
            constr_expected: ConstrId(Id(1)),
            constr_got: ConstrId(Id(0)),
        })
    );
}

#[test]
fn struct_field_out_of_bound() {
    let mut m = module(
        vec![
            Instruction::FetchGlobal(GlobalId(Id(0))),
            Instruction::AccessField(ConstrId(Id(0)), 2),
            Instruction::Ret,
        ],
        vec![],
        vec![fun(0, 0, 0)],
    );
    m.globals = vec![pair()];
    m.constrs = vec![ConstrDef { field_count: 2 }];
    assert_eq!(
        run(&m),
        Err(ExecutionError::StructFieldOutOfBound {
            constr: ConstrId(Id(0)),
            field_index: 2,
            struct_len: 2,
        })
    );
}

#[test]
fn access_field_of_non_struct() {
    let m = module(
        vec![lit(0), Instruction::AccessField(ConstrId(Id(0)), 0), Instruction::Ret],
        vec![MyLiteral::Int(4)],
        vec![fun(0, 0, 0)],
    );
    assert_eq!(
        run(&m),
        Err(ExecutionError::ValueKindUnexpected {
            value_expected: ValueKind::Struct,
            value_got: ValueKind::Integral,
        })
    );
}

#[test]
fn call_of_non_function() {
    let m = module(
        vec![lit(0), Instruction::Call(CallArity(0)), Instruction::Ret],
        vec![MyLiteral::Int(4)],
        vec![fun(0, 0, 0)],
    );
    assert_eq!(
        run(&m),
        Err(ExecutionError::ValueKindUnexpected {
            value_expected: ValueKind::Fun,
            value_got: ValueKind::Integral,
        })
    );
}

#[test]
fn call_with_wrong_arity() {
    let m = module(
        vec![
            Instruction::FetchFun(FunId(Id(1))),
            lit(0),
            Instruction::Call(CallArity(1)),
            Instruction::Ret,
            lit(0),
            Instruction::Ret,
        ],
        vec![MyLiteral::Int(4)],
        vec![fun(0, 0, 0), fun(4, 0, 0)],
    );
    assert_eq!(run(&m), Err(ExecutionError::ArityError { expected: 0, got: 1 }));
}

#[test]
fn entry_arity_overflow() {
    let m = module(vec![Instruction::Ret], vec![], vec![fun(0, 0, 0)]);
    let args: Vec<Value> = (0..256).map(|_| Value::Unit).collect();
    let mut em = ExecutionMachine::new(&m, BuiltinNifs);
    assert_eq!(exec(&mut em, FunId(Id(0)), &args), Err(ExecutionError::ArityOverflow { got: 256 }));
    assert!(em.stack.is_empty());
}

#[test]
fn locals_bind_and_fetch() {
    let m = module(
        vec![
            lit(0),
            Instruction::LocalBind(LocalBindIndex(1)),
            lit(1),
            Instruction::IgnoreOne,
            Instruction::FetchStackLocal(LocalBindIndex(1)),
            Instruction::Ret,
        ],
        vec![MyLiteral::Int(5), MyLiteral::Int(6)],
        vec![fun(0, 2, 0)],
    );
    assert_eq!(run(&m), Ok(Value::Integral(5)));
}

#[test]
fn invalid_literal_index() {
    let m = module(vec![lit(3), Instruction::Ret], vec![], vec![fun(0, 0, 0)]);
    assert_eq!(run(&m), Err(ExecutionError::InvalidBytecode { ip: 0 }));
}

#[test]
fn deeply_nested_calls() {
    let n: u32 = 10_000;
    let mut code = Vec::new();
    let mut funs = Vec::new();
    for i in 0..n - 1 {
        funs.push(fun(3 * i, 0, 0));
        code.push(Instruction::FetchFun(FunId(Id(i + 1))));
        code.push(Instruction::Call(CallArity(0)));
        code.push(Instruction::Ret);
    }
    funs.push(fun(3 * (n - 1), 0, 0));
    code.push(lit(0));
    code.push(Instruction::Ret);
    let m = module(code, vec![MyLiteral::Int(7)], funs);
    let mut em = ExecutionMachine::new(&m, BuiltinNifs);
    assert_eq!(exec(&mut em, FunId(Id(0)), &[]), Ok(Value::Integral(7)));
    assert!(em.rets.is_empty());
    assert_eq!(em.stack.len(), 1);
}

#[test]
fn continue_after_finished_run() {
    let m = module(vec![lit(0), Instruction::Ret], vec![MyLiteral::Int(7)], vec![fun(0, 0, 0)]);
    let mut em = ExecutionMachine::new(&m, BuiltinNifs);
    assert_eq!(exec(&mut em, FunId(Id(0)), &[]), Ok(Value::Integral(7)));
    assert_eq!(exec_continue(&mut em), Err(ExecutionError::ExecutionFinished));
}

#[test]
fn abort_before_first_step() {
    let m = module(vec![lit(0), Instruction::Ret], vec![MyLiteral::Int(7)], vec![fun(0, 0, 0)]);
    let mut em = ExecutionMachine::new(&m, BuiltinNifs);
    assert_eq!(exec_init(&mut em, FunId(Id(0)), &[]), Ok(()));
    em.abort();
    let len = em.stack.len();
    assert_eq!(tick(&mut em), Err(ExecutionError::Abort));
    assert_eq!(em.ip, InstructionAddress(0));
    assert_eq!(em.stack.len(), len);
}

#[test]
fn abort_nonterminating_loop() {
    let m = module(vec![Instruction::Jump(InstructionDiff(0))], vec![], vec![fun(0, 0, 0)]);
    let mut em = ExecutionMachine::new(&m, BuiltinNifs);
    assert_eq!(exec_init(&mut em, FunId(Id(0)), &[]), Ok(()));
    for _ in 0..100 {
        assert_eq!(tick(&mut em), Ok(None));
    }
    em.abort();
    assert_eq!(tick(&mut em), Err(ExecutionError::Abort));
    let m2 = module(
        vec![
            Instruction::FetchFun(FunId(Id(1))),
            Instruction::Call(CallArity(0)),
            Instruction::Ret,
            Instruction::Jump(InstructionDiff(0)),
        ],
        vec![],
        vec![fun(0, 0, 0), fun(3, 0, 0)],
    );
    let mut em = ExecutionMachine::new(&m2, BuiltinNifs);
    assert_eq!(exec_init(&mut em, FunId(Id(0)), &[]), Ok(()));
    for _ in 0..10 {
        assert_eq!(tick(&mut em), Ok(None));
    }
    em.abort();
    assert!(em.aborted());
    assert_eq!(exec_continue(&mut em), Err(ExecutionError::Abort));
}

#[test]
fn exec_on_aborted_machine() {
    let m = module(vec![lit(0), Instruction::Ret], vec![MyLiteral::Int(7)], vec![fun(0, 0, 0)]);
    let mut em = ExecutionMachine::new(&m, BuiltinNifs);
    em.abort();
    assert_eq!(exec(&mut em, FunId(Id(0)), &[]), Err(ExecutionError::Abort));
}

#[test]
fn stack_after_run_holds_prior_contents_and_value() {
    let m = module(
        vec![
            lit(0),
            Instruction::LocalBind(LocalBindIndex(0)),
            Instruction::FetchStackLocal(LocalBindIndex(0)),
            Instruction::Ret,
        ],
        vec![MyLiteral::Int(8)],
        vec![fun(0, 1, 1)],
    );
    let mut em = ExecutionMachine::new(&m, BuiltinNifs);
    em.stack.push(Value::Integral(99));
    assert_eq!(exec(&mut em, FunId(Id(0)), &[Value::Bool(true)]), Ok(Value::Integral(8)));
    assert_eq!(
        em.stack,
        vec![Value::Integral(99), Value::Integral(8)]
    );
    assert!(em.rets.is_empty());
}

#[test]
fn struct_with_wrong_field_count() {
    let mut m = module(
        vec![
            Instruction::FetchGlobal(GlobalId(Id(0))),
            Instruction::AccessField(ConstrId(Id(0)), 0),
            Instruction::Ret,
        ],
        vec![],
        vec![fun(0, 0, 0)],
    );
    m.globals = vec![pair()];
    m.constrs = vec![ConstrDef { field_count: 3 }];
    assert_eq!(run(&m), Err(ExecutionError::InvalidBytecode { ip: 1 }));
}
