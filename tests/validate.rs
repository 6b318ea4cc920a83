use wain_validate::ast::{
    Func, FuncKind, FuncType, Global, Import, InsnKind, Instruction, Module, Table, ValType,
};
use wain_validate::error::{ErrorKind, IndexSpace};
use wain_validate::{validate, validate_import, Context};

const SRC: &str = "(module)";

fn ty(start: usize, params: Vec<ValType>, results: Vec<ValType>) -> FuncType {
    FuncType { start, params, results }
}

fn insn(start: usize, kind: InsnKind) -> Instruction {
    Instruction { start, kind }
}

fn body(start: usize, idx: u32, locals: Vec<ValType>, expr: Vec<Instruction>) -> Func {
    Func { start, idx, kind: FuncKind::Body { locals, expr } }
}

fn import(start: usize, idx: u32, mod_name: &str, name: &str) -> Func {
    Func {
        start,
        idx,
        kind: FuncKind::Import(Import { mod_name: mod_name.to_string(), name: name.to_string() }),
    }
}

fn module(types: Vec<FuncType>, funcs: Vec<Func>) -> Module {
    Module { types, funcs, tables: vec![], globals: vec![] }
}

/// One function of type `params -> results` with the given locals and body.
fn one_func(
    params: Vec<ValType>,
    results: Vec<ValType>,
    locals: Vec<ValType>,
    expr: Vec<Instruction>,
) -> Module {
    module(vec![ty(0, params, results)], vec![body(10, 0, locals, expr)])
}

#[test]
fn minimal_module_is_accepted() {
    let m = one_func(vec![], vec![ValType::I32], vec![], vec![insn(20, InsnKind::Const(ValType::I32))]);
    assert!(validate(&m, SRC).is_ok());
}

#[test]
fn empty_module_is_accepted() {
    let m = module(vec![], vec![]);
    assert!(validate(&m, SRC).is_ok());
}

#[test]
fn params_locals_and_arithmetic_are_accepted() {
    let m = one_func(
        vec![ValType::I32, ValType::I64],
        vec![ValType::I64],
        vec![ValType::I32, ValType::I64, ValType::F32],
        vec![
            insn(20, InsnKind::LocalGet(0)),
            insn(21, InsnKind::Convert { from: ValType::I32, to: ValType::I64 }),
            insn(22, InsnKind::LocalGet(1)),
            insn(23, InsnKind::Binary(ValType::I64)),
            insn(24, InsnKind::Const(ValType::F32)),
            insn(25, InsnKind::LocalSet(2)),
        ],
    );
    assert!(validate(&m, SRC).is_ok());
}

#[test]
fn multiple_return_types_are_refused() {
    let m = module(vec![ty(5, vec![], vec![ValType::I32, ValType::I64])], vec![]);
    let e = validate(&m, SRC).unwrap_err();
    assert_eq!(e.offset, 5);
    assert_eq!(e.source, SRC);
    match e.kind {
        ErrorKind::MultipleReturnTypes(v) => assert_eq!(v, vec![ValType::I32, ValType::I64]),
        k => panic!("unexpected {:?}", k),
    }
}

#[test]
fn types_are_checked_before_functions() {
    let m = module(
        vec![ty(5, vec![], vec![ValType::F32, ValType::F32, ValType::F32])],
        vec![body(10, 7, vec![], vec![])],
    );
    let e = validate(&m, SRC).unwrap_err();
    match e.kind {
        ErrorKind::MultipleReturnTypes(v) => assert_eq!(v.len(), 3),
        k => panic!("unexpected {:?}", k),
    }
}

#[test]
fn type_index_out_of_bounds() {
    let m = module(vec![ty(0, vec![], vec![])], vec![body(12, 3, vec![], vec![])]);
    let e = validate(&m, SRC).unwrap_err();
    assert_eq!(e.offset, 12);
    match e.kind {
        ErrorKind::IndexOutOfBounds { idx, upper, what } => {
            assert_eq!(idx, 3);
            assert_eq!(upper, 1);
            assert_eq!(what, IndexSpace::Type);
            assert_eq!(what.label(), "type");
        },
        k => panic!("unexpected {:?}", k),
    }
}

#[test]
fn index_space_labels() {
    assert_eq!(IndexSpace::Type.label(), "type");
    assert_eq!(IndexSpace::Function.label(), "function");
    assert_eq!(IndexSpace::Table.label(), "table");
    assert_eq!(IndexSpace::Global.label(), "global variable");
    assert_eq!(IndexSpace::Local.label(), "local variable");
}

fn import_verdict(mod_name: &str, name: &str) -> Result<(), (String, String, usize)> {
    let m = module(vec![ty(0, vec![], vec![])], vec![import(30, 0, mod_name, name)]);
    match validate(&m, SRC) {
        Ok(()) => Ok(()),
        Err(e) => match e.kind {
            ErrorKind::UnknownImport { mod_name, name } => Err((mod_name, name, e.offset)),
            k => panic!("unexpected {:?}", k),
        },
    }
}

#[test]
fn import_from_env_is_accepted() {
    assert_eq!(import_verdict("env", "x"), Ok(()));
}

#[test]
fn import_named_print_is_accepted() {
    assert_eq!(import_verdict("y", "print"), Ok(()));
}

#[test]
fn import_env_print_is_accepted() {
    assert_eq!(import_verdict("env", "print"), Ok(()));
}

#[test]
fn unknown_import_is_refused() {
    assert_eq!(import_verdict("y", "x"), Err(("y".to_string(), "x".to_string(), 30)));
}

#[test]
fn validate_import_directly() {
    let m = module(vec![], vec![]);
    let ctx = Context { module: &m, source: SRC };
    let ok = Import { mod_name: "env".to_string(), name: "other".to_string() };
    assert!(validate_import(&ok, &ctx, 3).is_ok());
    let bad = Import { mod_name: "Env".to_string(), name: "Print".to_string() };
    let e = validate_import(&bad, &ctx, 3).unwrap_err();
    assert_eq!(e.offset, 3);
    assert!(matches!(e.kind, ErrorKind::UnknownImport { .. }));
}

#[test]
fn too_few_locals_for_params() {
    let m = one_func(vec![ValType::I32, ValType::I32], vec![], vec![ValType::I32], vec![]);
    let e = validate(&m, SRC).unwrap_err();
    assert_eq!(e.offset, 10);
    match e.kind {
        ErrorKind::TooFewFuncLocalsForParams { params, locals } => {
            assert_eq!(params, 2);
            assert_eq!(locals, 1);
        },
        k => panic!("unexpected {:?}", k),
    }
}

#[test]
fn param_type_mismatch_with_local() {
    let m = one_func(vec![ValType::I32], vec![], vec![ValType::F64], vec![]);
    let e = validate(&m, SRC).unwrap_err();
    match e.kind {
        ErrorKind::ParamTypeMismatchWithLocal { idx, param, local } => {
            assert_eq!(idx, 0);
            assert_eq!(param, ValType::I32);
            assert_eq!(local, ValType::F64);
        },
        k => panic!("unexpected {:?}", k),
    }
}

#[test]
fn second_param_mismatch_reports_its_position() {
    let m = one_func(
        vec![ValType::I32, ValType::I64],
        vec![],
        vec![ValType::I32, ValType::I32],
        vec![],
    );
    let e = validate(&m, SRC).unwrap_err();
    match e.kind {
        ErrorKind::ParamTypeMismatchWithLocal { idx, param, local } => {
            assert_eq!(idx, 1);
            assert_eq!(param, ValType::I64);
            assert_eq!(local, ValType::I32);
        },
        k => panic!("unexpected {:?}", k),
    }
}

#[test]
fn integer_into_float_operation_is_refused() {
    let m = one_func(
        vec![],
        vec![ValType::F32],
        vec![],
        vec![insn(20, InsnKind::Const(ValType::I32)), insn(27, InsnKind::Unary(ValType::F32))],
    );
    let e = validate(&m, SRC).unwrap_err();
    assert_eq!(e.offset, 27);
    match e.kind {
        ErrorKind::TypeMismatch { expected, actual } => {
            assert_eq!(expected, ValType::F32);
            assert_eq!(actual, ValType::I32);
        },
        k => panic!("unexpected {:?}", k),
    }
}

#[test]
fn dead_code_after_unreachable_is_accepted() {
    let m = one_func(
        vec![],
        vec![ValType::I32],
        vec![],
        vec![insn(20, InsnKind::Unreachable), insn(21, InsnKind::Compare(ValType::F64))],
    );
    assert!(validate(&m, SRC).is_ok());
}

#[test]
fn dead_code_after_branch_is_accepted() {
    let m = one_func(
        vec![],
        vec![],
        vec![],
        vec![
            insn(20, InsnKind::Block {
                ty: None,
                body: vec![insn(21, InsnKind::Br(0)), insn(22, InsnKind::Binary(ValType::I64)), insn(23, InsnKind::Drop)],
            }),
        ],
    );
    assert!(validate(&m, SRC).is_ok());
}

fn end_mismatch(m: &Module) -> (Option<ValType>, Vec<Option<ValType>>, usize) {
    let e = validate(m, SRC).unwrap_err();
    match e.kind {
        ErrorKind::ReturnTypeMismatch { expected, actual } => (expected, actual, e.offset),
        k => panic!("unexpected {:?}", k),
    }
}

#[test]
fn dead_code_still_checks_what_it_pushes() {
    let m = one_func(
        vec![],
        vec![ValType::I32],
        vec![],
        vec![insn(20, InsnKind::Unreachable), insn(21, InsnKind::Const(ValType::I64))],
    );
    assert_eq!(end_mismatch(&m), (Some(ValType::I32), vec![Some(ValType::I64)], 10));
}

#[test]
fn extra_value_without_result_is_refused() {
    let m = one_func(vec![], vec![], vec![], vec![insn(20, InsnKind::Const(ValType::I32))]);
    assert_eq!(end_mismatch(&m), (None, vec![Some(ValType::I32)], 10));
}

#[test]
fn extra_value_below_result_is_refused() {
    let m = one_func(
        vec![],
        vec![ValType::I32],
        vec![],
        vec![insn(20, InsnKind::Const(ValType::I64)), insn(21, InsnKind::Const(ValType::I32))],
    );
    assert_eq!(
        end_mismatch(&m),
        (Some(ValType::I32), vec![Some(ValType::I64), Some(ValType::I32)], 10)
    );
}

#[test]
fn missing_result_is_return_type_mismatch() {
    let m = one_func(vec![], vec![ValType::I32], vec![], vec![]);
    assert_eq!(end_mismatch(&m), (Some(ValType::I32), vec![], 10));
}

#[test]
fn wrong_result_kind_is_return_type_mismatch() {
    let m = one_func(vec![], vec![ValType::F32], vec![], vec![insn(20, InsnKind::Const(ValType::F64))]);
    assert_eq!(end_mismatch(&m), (Some(ValType::F32), vec![Some(ValType::F64)], 10));
}

#[test]
fn extra_value_at_block_end_is_refused() {
    let m = one_func(
        vec![],
        vec![],
        vec![],
        vec![insn(20, InsnKind::Block {
            ty: None,
            body: vec![insn(21, InsnKind::Const(ValType::I32))],
        })],
    );
    let e = validate(&m, SRC).unwrap_err();
    assert_eq!(e.offset, 20);
    match e.kind {
        ErrorKind::BlockResultMismatch { expected, extra } => {
            assert_eq!(expected, None);
            assert_eq!(extra, 1);
        },
        k => panic!("unexpected {:?}", k),
    }
}

#[test]
fn binary_operation_on_one_operand_underflows() {
    let m = one_func(
        vec![],
        vec![ValType::I32],
        vec![],
        vec![insn(20, InsnKind::Const(ValType::I32)), insn(21, InsnKind::Binary(ValType::I32))],
    );
    let e = validate(&m, SRC).unwrap_err();
    assert!(matches!(e.kind, ErrorKind::StackUnderflow));
    assert_eq!(e.offset, 21);
}

#[test]
fn block_cannot_pop_below_its_base() {
    let m = one_func(
        vec![],
        vec![],
        vec![],
        vec![
            insn(20, InsnKind::Const(ValType::I32)),
            insn(21, InsnKind::Block { ty: None, body: vec![insn(22, InsnKind::Drop)] }),
            insn(23, InsnKind::Drop),
        ],
    );
    let e = validate(&m, SRC).unwrap_err();
    assert!(matches!(e.kind, ErrorKind::StackUnderflow));
    assert_eq!(e.offset, 22);
}

#[test]
fn validation_is_repeatable() {
    let good = one_func(vec![], vec![ValType::I32], vec![], vec![insn(20, InsnKind::Const(ValType::I32))]);
    assert_eq!(validate(&good, SRC).is_ok(), validate(&good, SRC).is_ok());
    let bad = one_func(vec![], vec![], vec![], vec![insn(20, InsnKind::Const(ValType::I32))]);
    let e1 = validate(&bad, SRC).unwrap_err();
    let e2 = validate(&bad, SRC).unwrap_err();
    assert_eq!(e1.offset, e2.offset);
    assert_eq!(format!("{:?}", e1.kind), format!("{:?}", e2.kind));
}

#[test]
fn branch_past_the_labels_is_refused() {
    let m = one_func(vec![], vec![], vec![], vec![insn(20, InsnKind::Br(1))]);
    let e = validate(&m, SRC).unwrap_err();
    assert_eq!(e.offset, 20);
    match e.kind {
        ErrorKind::UnknownLabel { idx, depth } => {
            assert_eq!(idx, 1);
            assert_eq!(depth, 1);
        },
        k => panic!("unexpected {:?}", k),
    }
}

#[test]
fn branch_carries_the_label_result() {
    let m = one_func(
        vec![],
        vec![ValType::I32],
        vec![],
        vec![insn(20, InsnKind::Block {
            ty: Some(ValType::I32),
            body: vec![
                insn(21, InsnKind::Const(ValType::I32)),
                insn(22, InsnKind::Const(ValType::I32)),
                insn(23, InsnKind::BrIf(0)),
            ],
        })],
    );
    assert!(validate(&m, SRC).is_ok());
}

#[test]
fn branch_to_loop_carries_nothing() {
    let m = one_func(
        vec![],
        vec![ValType::I32],
        vec![],
        vec![insn(20, InsnKind::Loop {
            ty: Some(ValType::I32),
            body: vec![
                insn(21, InsnKind::Const(ValType::I32)),
                insn(22, InsnKind::BrIf(0)),
                insn(23, InsnKind::Const(ValType::I32)),
            ],
        })],
    );
    assert!(validate(&m, SRC).is_ok());
}

#[test]
fn if_arms_must_both_yield_the_result() {
    let good = one_func(
        vec![],
        vec![ValType::F64],
        vec![],
        vec![
            insn(20, InsnKind::Const(ValType::I32)),
            insn(21, InsnKind::If {
                ty: Some(ValType::F64),
                then_body: vec![insn(22, InsnKind::Const(ValType::F64))],
                else_body: vec![insn(23, InsnKind::Const(ValType::F64))],
            }),
        ],
    );
    assert!(validate(&good, SRC).is_ok());
    let bad = one_func(
        vec![],
        vec![ValType::F64],
        vec![],
        vec![
            insn(20, InsnKind::Const(ValType::I32)),
            insn(21, InsnKind::If {
                ty: Some(ValType::F64),
                then_body: vec![insn(22, InsnKind::Const(ValType::F64))],
                else_body: vec![],
            }),
        ],
    );
    let e = validate(&bad, SRC).unwrap_err();
    assert!(matches!(e.kind, ErrorKind::StackUnderflow));
    assert_eq!(e.offset, 21);
}

#[test]
fn branch_table_targets_must_agree() {
    let m = one_func(
        vec![],
        vec![],
        vec![],
        vec![insn(20, InsnKind::Block {
            ty: Some(ValType::I32),
            body: vec![
                insn(21, InsnKind::Const(ValType::I32)),
                insn(22, InsnKind::Const(ValType::I32)),
                insn(23, InsnKind::BrTable { labels: vec![0, 1], default_label: 0 }),
            ],
        }), insn(24, InsnKind::Drop)],
    );
    let e = validate(&m, SRC).unwrap_err();
    assert_eq!(e.offset, 23);
    match e.kind {
        ErrorKind::LabelTypeMismatch { expected, actual } => {
            assert_eq!(expected, Some(ValType::I32));
            assert_eq!(actual, None);
        },
        k => panic!("unexpected {:?}", k),
    }
}

#[test]
fn return_checks_the_result() {
    let good = one_func(
        vec![],
        vec![ValType::I64],
        vec![],
        vec![insn(20, InsnKind::Const(ValType::I64)), insn(21, InsnKind::Return), insn(22, InsnKind::Drop)],
    );
    assert!(validate(&good, SRC).is_ok());
    let bad = one_func(vec![], vec![ValType::I64], vec![], vec![insn(20, InsnKind::Const(ValType::I32)), insn(21, InsnKind::Return)]);
    let e = validate(&bad, SRC).unwrap_err();
    assert_eq!(e.offset, 21);
    assert!(matches!(e.kind, ErrorKind::TypeMismatch { expected: ValType::I64, actual: ValType::I32 }));
}

#[test]
fn calls_use_the_callee_signature() {
    let m = module(
        vec![ty(0, vec![ValType::I32, ValType::F32], vec![ValType::I64]), ty(1, vec![], vec![ValType::I64])],
        vec![
            import(5, 0, "env", "print"),
            body(10, 1, vec![], vec![
                insn(20, InsnKind::Const(ValType::I32)),
                insn(21, InsnKind::Const(ValType::F32)),
                insn(22, InsnKind::Call(0)),
            ]),
        ],
    );
    assert!(validate(&m, SRC).is_ok());
}

#[test]
fn call_to_missing_function_is_refused() {
    let m = one_func(vec![], vec![], vec![], vec![insn(20, InsnKind::Call(4))]);
    let e = validate(&m, SRC).unwrap_err();
    assert_eq!(e.offset, 20);
    match e.kind {
        ErrorKind::IndexOutOfBounds { idx, upper, what } => {
            assert_eq!((idx, upper, what), (4, 1, IndexSpace::Function));
        },
        k => panic!("unexpected {:?}", k),
    }
}

#[test]
fn call_indirect_needs_a_table() {
    let expr = || vec![insn(20, InsnKind::Const(ValType::I32)), insn(21, InsnKind::CallIndirect(0))];
    let without = one_func(vec![], vec![], vec![], expr());
    let e = validate(&without, SRC).unwrap_err();
    match e.kind {
        ErrorKind::IndexOutOfBounds { idx, upper, what } => {
            assert_eq!((idx, upper, what), (0, 0, IndexSpace::Table));
        },
        k => panic!("unexpected {:?}", k),
    }
    let mut with = one_func(vec![], vec![], vec![], expr());
    with.tables.push(Table { start: 1 });
    assert!(validate(&with, SRC).is_ok());
}

#[test]
fn locals_are_bounds_checked() {
    let m = one_func(vec![], vec![], vec![ValType::I32], vec![insn(20, InsnKind::LocalGet(1)), insn(21, InsnKind::Drop)]);
    let e = validate(&m, SRC).unwrap_err();
    match e.kind {
        ErrorKind::IndexOutOfBounds { idx, upper, what } => {
            assert_eq!((idx, upper, what), (1, 1, IndexSpace::Local));
        },
        k => panic!("unexpected {:?}", k),
    }
}

#[test]
fn local_tee_keeps_the_value() {
    let m = one_func(
        vec![],
        vec![ValType::F64],
        vec![ValType::F64],
        vec![insn(20, InsnKind::Const(ValType::F64)), insn(21, InsnKind::LocalTee(0))],
    );
    assert!(validate(&m, SRC).is_ok());
}

#[test]
fn immutable_global_cannot_be_set() {
    let mut m = one_func(
        vec![],
        vec![],
        vec![],
        vec![insn(20, InsnKind::GlobalGet(0)), insn(21, InsnKind::GlobalSet(0))],
    );
    m.globals.push(Global { start: 2, mutable: false, ty: ValType::I64 });
    let e = validate(&m, SRC).unwrap_err();
    assert_eq!(e.offset, 21);
    assert!(matches!(e.kind, ErrorKind::ImmutableGlobal { idx: 0 }));
    m.globals[0].mutable = true;
    assert!(validate(&m, SRC).is_ok());
}

#[test]
fn missing_global_is_refused() {
    let m = one_func(vec![], vec![], vec![], vec![insn(20, InsnKind::GlobalGet(2)), insn(21, InsnKind::Drop)]);
    let e = validate(&m, SRC).unwrap_err();
    match e.kind {
        ErrorKind::IndexOutOfBounds { idx, upper, what } => {
            assert_eq!((idx, upper, what), (2, 0, IndexSpace::Global));
            assert_eq!(what.label(), "global variable");
        },
        k => panic!("unexpected {:?}", k),
    }
}

#[test]
fn select_needs_operands_of_one_kind() {
    let good = one_func(
        vec![],
        vec![ValType::F32],
        vec![],
        vec![
            insn(20, InsnKind::Const(ValType::F32)),
            insn(21, InsnKind::Const(ValType::F32)),
            insn(22, InsnKind::Const(ValType::I32)),
            insn(23, InsnKind::Select),
        ],
    );
    assert!(validate(&good, SRC).is_ok());
    let bad = one_func(
        vec![],
        vec![ValType::F32],
        vec![],
        vec![
            insn(20, InsnKind::Const(ValType::I64)),
            insn(21, InsnKind::Const(ValType::F32)),
            insn(22, InsnKind::Const(ValType::I32)),
            insn(23, InsnKind::Select),
        ],
    );
    let e = validate(&bad, SRC).unwrap_err();
    assert_eq!(e.offset, 23);
    assert!(matches!(e.kind, ErrorKind::TypeMismatch { expected: ValType::F32, actual: ValType::I64 }));
}

#[test]
fn memory_instructions_type_check() {
    let m = one_func(
        vec![],
        vec![ValType::I32],
        vec![],
        vec![
            insn(20, InsnKind::Const(ValType::I32)),
            insn(21, InsnKind::Load(ValType::F64)),
            insn(22, InsnKind::Test(ValType::I32)),
            insn(23, InsnKind::Drop),
            insn(24, InsnKind::Const(ValType::I32)),
            insn(25, InsnKind::Const(ValType::I64)),
            insn(26, InsnKind::Store(ValType::I64)),
            insn(27, InsnKind::MemorySize),
            insn(28, InsnKind::MemoryGrow),
            insn(29, InsnKind::Nop),
        ],
    );
    let e = validate(&m, SRC).unwrap_err();
    assert_eq!(e.offset, 22);
    assert!(matches!(e.kind, ErrorKind::TypeMismatch { expected: ValType::I32, actual: ValType::F64 }));
}

#[test]
fn first_failing_function_wins() {
    let m = module(
        vec![ty(0, vec![], vec![])],
        vec![
            body(10, 0, vec![], vec![]),
            body(11, 0, vec![], vec![insn(30, InsnKind::Drop)]),
            body(12, 5, vec![], vec![]),
        ],
    );
    let e = validate(&m, SRC).unwrap_err();
    assert_eq!(e.offset, 30);
    assert!(matches!(e.kind, ErrorKind::StackUnderflow));
}
