//! Facts about validation as a whole, proved from the verdicts that the
//! validators are held to.
use vstd::prelude::*;
use crate::ast::{Func, FuncKind, InsnKind, Instruction, Module, ValType};
use crate::error::{agrees, Error, Fault, Located};
use crate::insn::{
    body_end, check_body, check_insn, check_seq, finish, frame, pop, pop_all, pop_expect, push_all,
    Frame,
};
use crate::{first_failure, func_outcome, module_outcome, param_outcome, result_of, Validate};

verus! {

/// A function that validation has nothing to object to in its declaration:
/// its type exists, it has a body, its locals begin with the parameters'
/// kinds, and its body type-checks.
pub open spec fn well_formed_body(m: &Module, f: Func) -> bool {
    &&& f.idx < m.types@.len()
    &&& match f.kind {
        FuncKind::Body { locals, expr } => {
            let ft = m.types@[f.idx as int];
            &&& ft.params@.len() <= locals@.len()
            &&& forall|j: int| 0 <= j < ft.params@.len() ==> locals@[j] == ft.params@[j]
            &&& check_body(m, locals@, result_of(ft), expr@, f.start) is Ok
        },
        FuncKind::Import(_) => false,
    }
}

proof fn lemma_all_ok<V: Validate>(m: &Module, items: Seq<V>)
    requires
        forall|i: int| 0 <= i < items.len() ==> (#[trigger] items[i]).outcome(m) is Ok,
    ensures
        first_failure(m, items) is Ok,
    decreases items.len(),
{
    if items.len() > 0 {
        assert(items[0].outcome(m) is Ok);
        assert forall|i: int| 0 <= i < items.drop_first().len() implies (
        #[trigger] items.drop_first()[i]).outcome(m) is Ok by {
            assert(items.drop_first()[i] == items[i + 1]);
        }
        lemma_all_ok(m, items.drop_first());
    }
}

proof fn lemma_params_match(params: Seq<ValType>, locals: Seq<ValType>, from: int, at: usize)
    requires
        0 <= from,
        params.len() <= locals.len(),
        forall|j: int| 0 <= j < params.len() ==> locals[j] == params[j],
    ensures
        param_outcome(params, locals, from, at) is Ok,
    decreases params.len() - from,
{
    if from < params.len() {
        lemma_params_match(params, locals, from + 1, at);
    }
}

/// A module whose function types each declare at most one result, and whose
/// functions are all well-formed bodies, is accepted.
pub proof fn lemma_well_formed_module_accepted(m: &Module)
    requires
        forall|i: int| 0 <= i < m.types@.len() ==> (#[trigger] m.types@[i]).results@.len() <= 1,
        forall|i: int| 0 <= i < m.funcs@.len() ==> well_formed_body(m, #[trigger] m.funcs@[i]),
    ensures
        module_outcome(m) is Ok,
{
    assert forall|i: int| 0 <= i < m.types@.len() implies (#[trigger] m.types@[i]).outcome(
        m,
    ) is Ok by {}
    lemma_all_ok(m, m.types@);
    assert forall|i: int| 0 <= i < m.funcs@.len() implies (#[trigger] m.funcs@[i]).outcome(
        m,
    ) is Ok by {
        let f = m.funcs@[i];
        assert(well_formed_body(m, f));
        let ft = m.types@[f.idx as int];
        match f.kind {
            FuncKind::Body { locals, expr } => {
                lemma_params_match(ft.params@, locals@, 0, f.start);
            },
            FuncKind::Import(_) => {},
        }
        assert(func_outcome(m, f) is Ok);
    }
    lemma_all_ok(m, m.funcs@);
}

/// A block that ends with values left below its result is refused with a
/// result mismatch that counts them, whether or not its end is reachable.
pub proof fn lemma_extra_values_refused(
    extra: Seq<Option<ValType>>,
    ret: Option<ValType>,
    unreachable: bool,
    at: usize,
)
    requires
        extra.len() > 0,
        extra.len() < usize::MAX,
    ensures
        finish(
            Ok(frame(
                extra + match ret {
                    Some(t) => seq![Some(t)],
                    None => Seq::empty(),
                },
                unreachable,
            )),
            ret,
            at,
        ) == Err::<(), Located>(
            (Fault::BlockResultMismatch { expected: ret, extra: extra.len() as usize }, at),
        ),
{
    match ret {
        Some(t) => {
            let s = extra + seq![Some(t)];
            assert(s.drop_last() =~= extra);
        },
        None => {
            assert(extra + Seq::<Option<ValType>>::empty() =~= extra);
        },
    }
}

/// Validation is a function of the module and the source: two runs on the
/// same input give the same verdict, and the same failure.
pub proof fn lemma_validate_deterministic<'a>(
    m: &Module,
    source: &'a str,
    r1: Result<(), Error<'a>>,
    r2: Result<(), Error<'a>>,
)
    requires
        agrees(r1, module_outcome(m), source),
        agrees(r2, module_outcome(m), source),
    ensures
        r1 is Ok <==> r2 is Ok,
        r1 is Err ==> {
            &&& r1->Err_0.kind@ == r2->Err_0.kind@
            &&& r1->Err_0.offset == r2->Err_0.offset
            &&& r1->Err_0.source == r2->Err_0.source
        },
{
}

/// An `i32` pushed and then handed to an operation on `f32` is refused at
/// that operation, whatever the surrounding stack.
pub proof fn lemma_integer_into_float_op_refused(
    m: &Module,
    locals: Seq<ValType>,
    ret: Option<ValType>,
    labels: Seq<Option<ValType>>,
    f: Frame,
    a: usize,
    b: usize,
)
    ensures
        check_seq(
            m,
            locals,
            ret,
            labels,
            seq![
                Instruction { start: a, kind: InsnKind::Const(ValType::I32) },
                Instruction { start: b, kind: InsnKind::Unary(ValType::F32) },
            ],
            f,
        ) == Err::<Frame, Located>(
            (Fault::TypeMismatch { expected: ValType::F32, actual: ValType::I32 }, b),
        ),
{
    let insns = seq![
        Instruction { start: a, kind: InsnKind::Const(ValType::I32) },
        Instruction { start: b, kind: InsnKind::Unary(ValType::F32) },
    ];
    assert(insns.drop_first() =~= seq![insns[1]]);
    assert(insns.drop_first().drop_first() =~= Seq::<Instruction>::empty());
    assert(seq![ValType::F32].drop_last() =~= Seq::<ValType>::empty());
    let g = push_all(f, seq![ValType::I32]);
    assert(g.stack.last() == Some(ValType::I32));
    assert(pop_all(f, Seq::empty(), a) == Ok::<Frame, Located>(f));
    assert(check_insn(m, locals, ret, labels, insns[0], f) == Ok::<Frame, Located>(g));
    reveal_with_fuel(pop_all, 2);
    assert(pop_all(g, seq![ValType::F32], b) is Err);
    assert(check_insn(m, locals, ret, labels, insns[1], g) == Err::<Frame, Located>(
        (Fault::TypeMismatch { expected: ValType::F32, actual: ValType::I32 }, b),
    ));
    reveal_with_fuel(check_seq, 3);
}

/// After `unreachable` the stack is polymorphic: an operation finds operands
/// of whatever kind it needs, and only its result remains.
pub proof fn lemma_dead_code_polymorphic(
    m: &Module,
    locals: Seq<ValType>,
    ret: Option<ValType>,
    labels: Seq<Option<ValType>>,
    f: Frame,
    t: ValType,
    a: usize,
    b: usize,
)
    ensures
        check_seq(
            m,
            locals,
            ret,
            labels,
            seq![
                Instruction { start: a, kind: InsnKind::Unreachable },
                Instruction { start: b, kind: InsnKind::Binary(t) },
            ],
            f,
        ) == Ok::<Frame, Located>(frame(seq![Some(t)], true)),
{
    let insns = seq![
        Instruction { start: a, kind: InsnKind::Unreachable },
        Instruction { start: b, kind: InsnKind::Binary(t) },
    ];
    assert(insns.drop_first() =~= seq![insns[1]]);
    assert(insns.drop_first().drop_first() =~= Seq::<Instruction>::empty());
    assert(seq![t, t].drop_last() =~= seq![t]);
    assert(seq![t].drop_last() =~= Seq::<ValType>::empty());
    let empty = Seq::<Option<ValType>>::empty();
    assert(empty + seq![t].map_values(|v: ValType| Some(v)) =~= seq![Some(t)]);
    let d = frame(empty, true);
    assert(check_insn(m, locals, ret, labels, insns[0], f) == Ok::<Frame, Located>(d));
    reveal_with_fuel(pop_all, 3);
    assert(pop_all(d, seq![t, t], b) == Ok::<Frame, Located>(d));
    assert(check_insn(m, locals, ret, labels, insns[1], d) == Ok::<Frame, Located>(
        frame(seq![Some(t)], true),
    ));
    reveal_with_fuel(check_seq, 3);
}

/// The stack that a result `ret` asks for at the end of a function body.
pub open spec fn result_stack(ret: Option<ValType>) -> Seq<Option<ValType>> {
    match ret {
        Some(t) => seq![Some(t)],
        None => Seq::empty(),
    }
}

/// At the reachable end of a function body, where every value on the stack
/// has a known kind, the stack must be exactly the declared result: any
/// difference (a value too many, a value missing, a value of the wrong kind)
/// is a return-type mismatch that shows the stack.
pub proof fn lemma_body_end_exact(f: Frame, ret: Option<ValType>, at: usize)
    requires
        !f.unreachable,
        forall|i: int| 0 <= i < f.stack.len() ==> (#[trigger] f.stack[i]) is Some,
    ensures
        body_end(Ok(f), ret, at) == if f.stack == result_stack(ret) {
            Ok::<(), Located>(())
        } else {
            Err((Fault::ReturnTypeMismatch { expected: ret, actual: f.stack }, at))
        },
{
    let fits = f.stack == result_stack(ret);
    match ret {
        Some(t) => {
            if f.stack.len() == 0 {
                assert(!fits);
            } else {
                let top = f.stack[f.stack.len() - 1];
                assert(top is Some);
                if top != Some(t) {
                    assert(!fits);
                } else if f.stack.len() == 1 {
                    assert(f.stack =~= seq![Some(t)]);
                    assert(f.stack.drop_last().len() == 0);
                } else {
                    assert(!fits);
                    assert(f.stack.drop_last().len() > 0);
                }
            }
        },
        None => {
            if f.stack.len() == 0 {
                assert(f.stack =~= Seq::<Option<ValType>>::empty());
            } else {
                assert(!fits);
            }
        },
    }
}

/// A sequence that runs without failure up to instruction `k` and fails
/// there is refused with that failure: what follows is not examined.
/// Otherwise it goes on from the frame that instruction left.
pub proof fn lemma_first_failure_in_sequence(
    m: &Module,
    locals: Seq<ValType>,
    ret: Option<ValType>,
    labels: Seq<Option<ValType>>,
    insns: Seq<Instruction>,
    k: int,
    f: Frame,
    g: Frame,
)
    requires
        0 <= k < insns.len(),
        check_seq(m, locals, ret, labels, insns.take(k), f) == Ok::<Frame, Located>(g),
    ensures
        check_seq(m, locals, ret, labels, insns, f) == match check_insn(
            m,
            locals,
            ret,
            labels,
            insns[k],
            g,
        ) {
            Err(e) => Err(e),
            Ok(h) => check_seq(m, locals, ret, labels, insns.skip(k + 1), h),
        },
    decreases k,
{
    if k == 0 {
        assert(insns.drop_first() =~= insns.skip(1));
    } else {
        let t = insns.take(k);
        assert(t[0] == insns[0]);
        assert(t.drop_first() =~= insns.drop_first().take(k - 1));
        match check_insn(m, locals, ret, labels, insns[0], f) {
            Err(e) => {},
            Ok(f1) => {
                lemma_first_failure_in_sequence(
                    m,
                    locals,
                    ret,
                    labels,
                    insns.drop_first(),
                    k - 1,
                    f1,
                    g,
                );
                assert(insns.drop_first()[k - 1] == insns[k]);
                assert(insns.drop_first().skip(k) =~= insns.skip(k + 1));
            },
        }
    }
}

/// An instruction that needs an operand of kind `t` while a known value of
/// another kind `u` is on top is refused with a type mismatch at its offset.
pub proof fn lemma_wrong_operand_kind(f: Frame, t: ValType, u: ValType, at: usize)
    requires
        f.stack.len() > 0,
        f.stack.last() == Some(u),
        u != t,
    ensures
        pop_expect(f, t, at) == Err::<Frame, Located>(
            (Fault::TypeMismatch { expected: t, actual: u }, at),
        ),
{
}

/// In unreachable code a pop never underflows, and on an emptied stack any
/// operands are found, whatever kinds are asked for.
pub proof fn lemma_dead_code_pops(f: Frame, ts: Seq<ValType>, at: usize)
    requires
        f.unreachable,
    ensures
        pop(f, at) is Ok,
        f.stack.len() == 0 ==> pop_all(f, ts, at) == Ok::<Frame, Located>(f),
    decreases ts.len(),
{
    if ts.len() > 0 {
        lemma_dead_code_pops(f, ts.drop_last(), at);
    }
}

} // verus!
