//! The body type-checker: an abstract stack machine that walks a function
//! body and proves that every instruction finds operands of the kinds it
//! needs.
//!
//! Each block gets an operand stack of its own that starts empty, so a block
//! can never pop below its base. After an unconditional exit (`unreachable`,
//! `br`, `br_table`, `return`) the stack is cleared and the block becomes
//! polymorphic: a pop from the empty stack yields a value of unknown kind,
//! written `None`, which satisfies any expectation.
use vstd::prelude::*;
use crate::ast::{InsnKind, Instruction, Module, ValType};
use crate::error::{agrees, fails_with, Error, ErrorKind, Fault, IndexSpace, Located};
use crate::Context;

verus! {

/// The operand stack of the innermost block, above its base, and whether the
/// rest of the block is unreachable.
pub ghost struct Frame {
    pub stack: Seq<Option<ValType>>,
    pub unreachable: bool,
}

pub open spec fn frame(stack: Seq<Option<ValType>>, unreachable: bool) -> Frame {
    Frame { stack, unreachable }
}

pub open spec fn empty_frame() -> Frame {
    frame(Seq::empty(), false)
}

/// Clears the stack and makes the rest of the block polymorphic.
pub open spec fn dead(f: Frame) -> Frame {
    frame(Seq::empty(), true)
}

pub open spec fn push(f: Frame, t: ValType) -> Frame {
    frame(f.stack.push(Some(t)), f.unreachable)
}

pub open spec fn push_opt(f: Frame, t: Option<ValType>) -> Frame {
    match t {
        Some(t) => push(f, t),
        None => f,
    }
}

/// Pushes `ts` in order, the last one on top.
pub open spec fn push_all(f: Frame, ts: Seq<ValType>) -> Frame {
    frame(f.stack + ts.map_values(|t: ValType| Some(t)), f.unreachable)
}

/// Takes the top operand; on an empty polymorphic stack it is of unknown kind.
pub open spec fn pop(f: Frame, at: usize) -> Result<(Frame, Option<ValType>), Located> {
    if f.stack.len() == 0 {
        if f.unreachable {
            Ok((f, None))
        } else {
            Err((Fault::StackUnderflow, at))
        }
    } else {
        Ok((frame(f.stack.drop_last(), f.unreachable), f.stack.last()))
    }
}

/// Takes the top operand, which must be of kind `t` or unknown.
pub open spec fn pop_expect(f: Frame, t: ValType, at: usize) -> Result<Frame, Located> {
    match pop(f, at) {
        Err(e) => Err(e),
        Ok((g, v)) => match v {
            Some(a) => if a == t {
                Ok(g)
            } else {
                Err((Fault::TypeMismatch { expected: t, actual: a }, at))
            },
            None => Ok(g),
        },
    }
}

pub open spec fn pop_opt(f: Frame, t: Option<ValType>, at: usize) -> Result<Frame, Located> {
    match t {
        Some(t) => pop_expect(f, t, at),
        None => Ok(f),
    }
}

/// Takes operands of kinds `ts`, the last of `ts` from the top.
pub open spec fn pop_all(f: Frame, ts: Seq<ValType>, at: usize) -> Result<Frame, Located>
    decreases ts.len(),
{
    if ts.len() == 0 {
        Ok(f)
    } else {
        match pop_expect(f, ts.last(), at) {
            Err(e) => Err(e),
            Ok(g) => pop_all(g, ts.drop_last(), at),
        }
    }
}

/// The effect of an instruction that reads operands `ins` and yields `outs`.
pub open spec fn effect(f: Frame, ins: Seq<ValType>, outs: Seq<ValType>, at: usize) -> Result<
    Frame,
    Located,
> {
    match pop_all(f, ins, at) {
        Err(e) => Err(e),
        Ok(g) => Ok(push_all(g, outs)),
    }
}

/// The result kind that a branch to label `l` carries; label 0 is the
/// innermost, the last of `labels`.
pub open spec fn label_at(labels: Seq<Option<ValType>>, l: u32) -> Option<ValType> {
    labels[labels.len() - 1 - l]
}

pub open spec fn unknown_label(labels: Seq<Option<ValType>>, l: u32, at: usize) -> Located {
    (Fault::UnknownLabel { idx: l, depth: labels.len() as usize }, at)
}

/// Every target of a branch table exists and carries the kind `expected`;
/// else the first one that does not.
pub open spec fn table_targets(
    labels: Seq<Option<ValType>>,
    ls: Seq<u32>,
    expected: Option<ValType>,
    at: usize,
) -> Result<(), Located>
    decreases ls.len(),
{
    if ls.len() == 0 {
        Ok(())
    } else {
        let l = ls[0];
        if l >= labels.len() {
            Err(unknown_label(labels, l, at))
        } else if label_at(labels, l) != expected {
            Err((Fault::LabelTypeMismatch { expected, actual: label_at(labels, l) }, at))
        } else {
            table_targets(labels, ls.drop_first(), expected, at)
        }
    }
}

/// The end of a block whose instructions left frame `r`: exactly the result
/// `ty` must remain.
pub open spec fn finish(r: Result<Frame, Located>, ty: Option<ValType>, at: usize) -> Result<
    (),
    Located,
> {
    match r {
        Err(e) => Err(e),
        Ok(f) => match pop_opt(f, ty, at) {
            Err(e) => Err(e),
            Ok(g) => if g.stack.len() == 0 {
                Ok(())
            } else {
                Err((Fault::BlockResultMismatch { expected: ty, extra: g.stack.len() as usize }, at))
            },
        },
    }
}

pub open spec fn out_of_bounds(idx: u32, upper: int, what: IndexSpace, at: usize) -> Located {
    (Fault::IndexOutOfBounds { idx, upper: upper as usize, what }, at)
}

/// What one instruction does to the frame, inside a function with locals
/// `locals` and result `ret`, under the enclosing labels `labels`.
pub open spec fn check_insn(
    m: &Module,
    locals: Seq<ValType>,
    ret: Option<ValType>,
    labels: Seq<Option<ValType>>,
    insn: Instruction,
    f: Frame,
) -> Result<Frame, Located>
    decreases insn,
{
    let at = insn.start;
    match insn.kind {
        InsnKind::Block { ty, body } => match finish(
            check_seq(m, locals, ret, labels.push(ty), body@, empty_frame()),
            ty,
            at,
        ) {
            Err(e) => Err(e),
            Ok(_) => Ok(push_opt(f, ty)),
        },
        InsnKind::Loop { ty, body } => match finish(
            check_seq(m, locals, ret, labels.push(None), body@, empty_frame()),
            ty,
            at,
        ) {
            Err(e) => Err(e),
            Ok(_) => Ok(push_opt(f, ty)),
        },
        InsnKind::If { ty, then_body, else_body } => match pop_expect(f, ValType::I32, at) {
            Err(e) => Err(e),
            Ok(g) => match finish(
                check_seq(m, locals, ret, labels.push(ty), then_body@, empty_frame()),
                ty,
                at,
            ) {
                Err(e) => Err(e),
                Ok(_) => match finish(
                    check_seq(m, locals, ret, labels.push(ty), else_body@, empty_frame()),
                    ty,
                    at,
                ) {
                    Err(e) => Err(e),
                    Ok(_) => Ok(push_opt(g, ty)),
                },
            },
        },
        InsnKind::Unreachable => Ok(dead(f)),
        InsnKind::Nop => Ok(f),
        InsnKind::Br(l) => if l >= labels.len() {
            Err(unknown_label(labels, l, at))
        } else {
            match pop_opt(f, label_at(labels, l), at) {
                Err(e) => Err(e),
                Ok(_) => Ok(dead(f)),
            }
        },
        InsnKind::BrIf(l) => if l >= labels.len() {
            Err(unknown_label(labels, l, at))
        } else {
            match pop_expect(f, ValType::I32, at) {
                Err(e) => Err(e),
                Ok(g) => match pop_opt(g, label_at(labels, l), at) {
                    Err(e) => Err(e),
                    Ok(h) => Ok(push_opt(h, label_at(labels, l))),
                },
            }
        },
        InsnKind::BrTable { labels: ls, default_label: d } => match pop_expect(
            f,
            ValType::I32,
            at,
        ) {
            Err(e) => Err(e),
            Ok(g) => if d >= labels.len() {
                Err(unknown_label(labels, d, at))
            } else {
                match table_targets(labels, ls@, label_at(labels, d), at) {
                    Err(e) => Err(e),
                    Ok(_) => match pop_opt(g, label_at(labels, d), at) {
                        Err(e) => Err(e),
                        Ok(_) => Ok(dead(g)),
                    },
                }
            },
        },
        InsnKind::Return => match pop_opt(f, ret, at) {
            Err(e) => Err(e),
            Ok(_) => Ok(dead(f)),
        },
        InsnKind::Call(fi) => if fi >= m.funcs@.len() {
            Err(out_of_bounds(fi, m.funcs@.len() as int, IndexSpace::Function, at))
        } else {
            let ti = m.funcs@[fi as int].idx;
            if ti >= m.types@.len() {
                Err(out_of_bounds(ti, m.types@.len() as int, IndexSpace::Type, at))
            } else {
                let ft = m.types@[ti as int];
                effect(f, ft.params@, ft.results@, at)
            }
        },
        InsnKind::CallIndirect(ti) => if m.tables@.len() == 0 {
            Err(out_of_bounds(0, 0, IndexSpace::Table, at))
        } else if ti >= m.types@.len() {
            Err(out_of_bounds(ti, m.types@.len() as int, IndexSpace::Type, at))
        } else {
            match pop_expect(f, ValType::I32, at) {
                Err(e) => Err(e),
                Ok(g) => {
                    let ft = m.types@[ti as int];
                    effect(g, ft.params@, ft.results@, at)
                },
            }
        },
        InsnKind::Drop => match pop(f, at) {
            Err(e) => Err(e),
            Ok((g, _)) => Ok(g),
        },
        InsnKind::Select => match pop_expect(f, ValType::I32, at) {
            Err(e) => Err(e),
            Ok(g) => match pop(g, at) {
                Err(e) => Err(e),
                Ok((g1, a)) => match pop(g1, at) {
                    Err(e) => Err(e),
                    Ok((g2, b)) => match (a, b) {
                        (Some(x), Some(y)) => if x == y {
                            Ok(frame(g2.stack.push(a), g2.unreachable))
                        } else {
                            Err((Fault::TypeMismatch { expected: x, actual: y }, at))
                        },
                        (Some(_), None) => Ok(frame(g2.stack.push(a), g2.unreachable)),
                        (None, _) => Ok(frame(g2.stack.push(b), g2.unreachable)),
                    },
                },
            },
        },
        InsnKind::LocalGet(i) => if i >= locals.len() {
            Err(out_of_bounds(i, locals.len() as int, IndexSpace::Local, at))
        } else {
            Ok(push(f, locals[i as int]))
        },
        InsnKind::LocalSet(i) => if i >= locals.len() {
            Err(out_of_bounds(i, locals.len() as int, IndexSpace::Local, at))
        } else {
            pop_expect(f, locals[i as int], at)
        },
        InsnKind::LocalTee(i) => if i >= locals.len() {
            Err(out_of_bounds(i, locals.len() as int, IndexSpace::Local, at))
        } else {
            match pop_expect(f, locals[i as int], at) {
                Err(e) => Err(e),
                Ok(g) => Ok(push(g, locals[i as int])),
            }
        },
        InsnKind::GlobalGet(i) => if i >= m.globals@.len() {
            Err(out_of_bounds(i, m.globals@.len() as int, IndexSpace::Global, at))
        } else {
            Ok(push(f, m.globals@[i as int].ty))
        },
        InsnKind::GlobalSet(i) => if i >= m.globals@.len() {
            Err(out_of_bounds(i, m.globals@.len() as int, IndexSpace::Global, at))
        } else if !m.globals@[i as int].mutable {
            Err((Fault::ImmutableGlobal { idx: i }, at))
        } else {
            pop_expect(f, m.globals@[i as int].ty, at)
        },
        InsnKind::Load(t) => effect(f, seq![ValType::I32], seq![t], at),
        InsnKind::Store(t) => effect(f, seq![ValType::I32, t], seq![], at),
        InsnKind::MemorySize => effect(f, seq![], seq![ValType::I32], at),
        InsnKind::MemoryGrow => effect(f, seq![ValType::I32], seq![ValType::I32], at),
        InsnKind::Const(t) => effect(f, seq![], seq![t], at),
        InsnKind::Unary(t) => effect(f, seq![t], seq![t], at),
        InsnKind::Binary(t) => effect(f, seq![t, t], seq![t], at),
        InsnKind::Test(t) => effect(f, seq![t], seq![ValType::I32], at),
        InsnKind::Compare(t) => effect(f, seq![t, t], seq![ValType::I32], at),
        InsnKind::Convert { from, to } => effect(f, seq![from], seq![to], at),
    }
}

/// What a straight-line sequence of instructions does to the frame: each
/// instruction in turn, stopping at the first failure.
pub open spec fn check_seq(
    m: &Module,
    locals: Seq<ValType>,
    ret: Option<ValType>,
    labels: Seq<Option<ValType>>,
    insns: Seq<Instruction>,
    f: Frame,
) -> Result<Frame, Located>
    decreases insns,
{
    if insns.len() == 0 {
        Ok(f)
    } else {
        match check_insn(m, locals, ret, labels, insns[0], f) {
            Err(e) => Err(e),
            Ok(g) => check_seq(m, locals, ret, labels, insns.drop_first(), g),
        }
    }
}

/// The end of a function body whose instructions left frame `r`: the stack
/// must be exactly the result `ret`, else a return-type mismatch that shows
/// what was left.
pub open spec fn body_end(r: Result<Frame, Located>, ret: Option<ValType>, at: usize) -> Result<
    (),
    Located,
> {
    match r {
        Err(e) => Err(e),
        Ok(f) => match finish(Ok(f), ret, at) {
            Ok(_) => Ok(()),
            Err(_) => Err((Fault::ReturnTypeMismatch { expected: ret, actual: f.stack }, at)),
        },
    }
}

/// The verdict on a function body with locals `locals` and result `ret`.
pub open spec fn check_body(
    m: &Module,
    locals: Seq<ValType>,
    ret: Option<ValType>,
    expr: Seq<Instruction>,
    at: usize,
) -> Result<(), Located> {
    body_end(check_seq(m, locals, ret, seq![ret], expr, empty_frame()), ret, at)
}

/// No operand kinds.
fn kinds0() -> (r: Vec<ValType>)
    ensures
        r@ == Seq::<ValType>::empty(),
{
    Vec::new()
}

/// One operand kind.
fn kinds1(a: ValType) -> (r: Vec<ValType>)
    ensures
        r@ == seq![a],
{
    let mut v = Vec::new();
    v.push(a);
    proof {
        assert(v@ =~= seq![a]);
    }
    v
}

/// Two operand kinds, `b` on top.
fn kinds2(a: ValType, b: ValType) -> (r: Vec<ValType>)
    ensures
        r@ == seq![a, b],
{
    let mut v = Vec::new();
    v.push(a);
    v.push(b);
    proof {
        assert(v@ =~= seq![a, b]);
    }
    v
}

/// How an executable step relates to the described one: on success the
/// frame is `frame(stack, unreachable)`, on failure the same located failure.
pub open spec fn step_agrees<'a>(
    r: Result<(), Error<'a>>,
    s: Result<Frame, Located>,
    stack: Seq<Option<ValType>>,
    unreachable: bool,
    source: &'a str,
) -> bool {
    match s {
        Ok(f) => r is Ok && f == frame(stack, unreachable),
        Err(e) => fails_with(r, e, source),
    }
}

/// Checks the bodies of one function: its locals and its result are fixed,
/// the labels grow and shrink with the nesting.
pub struct BodyChecker<'c, 'm, 'a> {
    pub ctx: &'c Context<'m, 'a>,
    pub locals: &'c Vec<ValType>,
    pub ret: Option<ValType>,
}

impl<'c, 'm, 'a> BodyChecker<'c, 'm, 'a> {
    pub open spec fn insn_verdict(
        &self,
        labels: Seq<Option<ValType>>,
        insn: Instruction,
        f: Frame,
    ) -> Result<Frame, Located> {
        check_insn(self.ctx.module, self.locals@, self.ret, labels, insn, f)
    }

    pub open spec fn seq_verdict(
        &self,
        labels: Seq<Option<ValType>>,
        insns: Seq<Instruction>,
        f: Frame,
    ) -> Result<Frame, Located> {
        check_seq(self.ctx.module, self.locals@, self.ret, labels, insns, f)
    }

    fn take(&self, stack: &mut Vec<Option<ValType>>, unreachable: bool, at: usize) -> (r: Result<
        Option<ValType>,
        Error<'a>,
    >)
        ensures
            match pop(frame(old(stack)@, unreachable), at) {
                Ok((g, v)) => r is Ok && r->Ok_0 == v && final(stack)@ == g.stack,
                Err(e) => fails_with(r, e, self.ctx.source),
            },
    {
        match stack.pop() {
            Some(v) => Ok(v),
            None => if unreachable {
                Ok(None)
            } else {
                self.ctx.error(ErrorKind::StackUnderflow, at)
            },
        }
    }

    fn take_expect(
        &self,
        stack: &mut Vec<Option<ValType>>,
        unreachable: bool,
        t: ValType,
        at: usize,
    ) -> (r: Result<(), Error<'a>>)
        ensures
            step_agrees(
                r,
                pop_expect(frame(old(stack)@, unreachable), t, at),
                final(stack)@,
                unreachable,
                self.ctx.source,
            ),
    {
        match self.take(stack, unreachable, at) {
            Err(e) => Err(e),
            Ok(Some(a)) => if a == t {
                Ok(())
            } else {
                self.ctx.error(ErrorKind::TypeMismatch { expected: t, actual: a }, at)
            },
            Ok(None) => Ok(()),
        }
    }

    fn take_opt(
        &self,
        stack: &mut Vec<Option<ValType>>,
        unreachable: bool,
        t: Option<ValType>,
        at: usize,
    ) -> (r: Result<(), Error<'a>>)
        ensures
            step_agrees(
                r,
                pop_opt(frame(old(stack)@, unreachable), t, at),
                final(stack)@,
                unreachable,
                self.ctx.source,
            ),
    {
        match t {
            Some(t) => self.take_expect(stack, unreachable, t, at),
            None => Ok(()),
        }
    }

    fn give_opt(stack: &mut Vec<Option<ValType>>, t: Option<ValType>)
        ensures
            final(stack)@ == push_opt(frame(old(stack)@, false), t).stack,
    {
        match t {
            Some(t) => stack.push(Some(t)),
            None => {},
        }
    }

    /// Clears the stack: the rest of the block cannot be reached.
    fn kill(stack: &mut Vec<Option<ValType>>, unreachable: &mut bool)
        ensures
            final(stack)@ == Seq::<Option<ValType>>::empty(),
            *final(unreachable),
    {
        stack.clear();
        *unreachable = true;
    }

    /// The end of a block: exactly the result `ty` must remain.
    fn end_block(
        &self,
        stack: &mut Vec<Option<ValType>>,
        unreachable: bool,
        ty: Option<ValType>,
        at: usize,
    ) -> (r: Result<(), Error<'a>>)
        ensures
            agrees(r, finish(Ok(frame(old(stack)@, unreachable)), ty, at), self.ctx.source),
    {
        match self.take_opt(stack, unreachable, ty, at) {
            Err(e) => Err(e),
            Ok(_) => if stack.len() == 0 {
                Ok(())
            } else {
                self.ctx.error(ErrorKind::BlockResultMismatch { expected: ty, extra: stack.len() }, at)
            },
        }
    }

    /// The result kind carried by a branch to label `l`, which must exist.
    fn label(labels: &Vec<Option<ValType>>, l: u32) -> (r: Option<ValType>)
        requires
            (l as int) < labels@.len(),
        ensures
            r == label_at(labels@, l),
    {
        labels[labels.len() - 1 - l as usize]
    }

    /// Every target of a branch table exists and carries `expected`.
    fn check_targets(
        &self,
        labels: &Vec<Option<ValType>>,
        ls: &Vec<u32>,
        expected: Option<ValType>,
        at: usize,
    ) -> (r: Result<(), Error<'a>>)
        ensures
            agrees(r, table_targets(labels@, ls@, expected, at), self.ctx.source),
    {
        let mut i: usize = 0;
        proof {
            assert(ls@.skip(0) =~= ls@);
        }
        while i < ls.len()
            invariant
                i <= ls@.len(),
                table_targets(labels@, ls@, expected, at) == table_targets(
                    labels@,
                    ls@.skip(i as int),
                    expected,
                    at,
                ),
            decreases ls@.len() - i,
        {
            proof {
                assert(ls@.skip(i as int).drop_first() =~= ls@.skip(i + 1));
            }
            let l = ls[i];
            if l as usize >= labels.len() {
                return self.ctx.error(ErrorKind::UnknownLabel { idx: l, depth: labels.len() }, at);
            }
            let actual = Self::label(labels, l);
            if actual != expected {
                return self.ctx.error(ErrorKind::LabelTypeMismatch { expected, actual }, at);
            }
            i = i + 1;
        }
        Ok(())
    }

    /// A nested block under a new label `label`, whose instructions must
    /// leave exactly `ty`.
    fn check_block(
        &self,
        labels: &mut Vec<Option<ValType>>,
        body: &Vec<Instruction>,
        label: Option<ValType>,
        ty: Option<ValType>,
        at: usize,
    ) -> (r: Result<(), Error<'a>>)
        ensures
            final(labels)@ == old(labels)@,
            agrees(
                r,
                finish(self.seq_verdict(old(labels)@.push(label), body@, empty_frame()), ty, at),
                self.ctx.source,
            ),
        decreases body@, 3nat,
    {
        labels.push(label);
        let mut stack: Vec<Option<ValType>> = Vec::new();
        let mut unreachable = false;
        let r = self.check_seq(labels, body, &mut stack, &mut unreachable);
        labels.pop();
        proof {
            assert(labels@ =~= old(labels)@);
        }
        match r {
            Err(e) => Err(e),
            Ok(_) => self.end_block(&mut stack, unreachable, ty, at),
        }
    }

    /// Runs a straight-line sequence of instructions, stopping at the first
    /// failure.
    fn check_seq(
        &self,
        labels: &mut Vec<Option<ValType>>,
        insns: &Vec<Instruction>,
        stack: &mut Vec<Option<ValType>>,
        unreachable: &mut bool,
    ) -> (r: Result<(), Error<'a>>)
        ensures
            final(labels)@ == old(labels)@,
            step_agrees(
                r,
                self.seq_verdict(old(labels)@, insns@, frame(old(stack)@, *old(unreachable))),
                final(stack)@,
                *final(unreachable),
                self.ctx.source,
            ),
        decreases insns@, 0nat,
    {
        let mut i: usize = 0;
        proof {
            assert(insns@.skip(0) =~= insns@);
        }
        while i < insns.len()
            invariant
                i <= insns@.len(),
                labels@ == old(labels)@,
                self.seq_verdict(old(labels)@, insns@, frame(old(stack)@, *old(unreachable)))
                    == self.seq_verdict(labels@, insns@.skip(i as int), frame(stack@, *unreachable)),
            decreases insns@.len() - i,
        {
            proof {
                assert(insns@.skip(i as int).drop_first() =~= insns@.skip(i + 1));
            }
            match self.check_insn(labels, &insns[i], stack, unreachable) {
                Err(e) => return Err(e),
                Ok(_) => {},
            }
            i = i + 1;
        }
        Ok(())
    }

    /// Runs one instruction.
    fn check_insn(
        &self,
        labels: &mut Vec<Option<ValType>>,
        insn: &Instruction,
        stack: &mut Vec<Option<ValType>>,
        unreachable: &mut bool,
    ) -> (r: Result<(), Error<'a>>)
        ensures
            final(labels)@ == old(labels)@,
            step_agrees(
                r,
                self.insn_verdict(old(labels)@, *insn, frame(old(stack)@, *old(unreachable))),
                final(stack)@,
                *final(unreachable),
                self.ctx.source,
            ),
        decreases *insn, 2nat,
    {
        match &insn.kind {
            InsnKind::Block { .. } | InsnKind::Loop { .. } | InsnKind::If { .. } => self.check_nested(
                labels,
                insn,
                stack,
                unreachable,
            ),
            InsnKind::Unreachable | InsnKind::Nop | InsnKind::Br(_) | InsnKind::BrIf(_)
            | InsnKind::BrTable { .. } | InsnKind::Return => self.check_branch(
                labels,
                insn,
                stack,
                unreachable,
            ),
            InsnKind::Call(_) | InsnKind::CallIndirect(_) | InsnKind::LocalGet(_)
            | InsnKind::LocalSet(_) | InsnKind::LocalTee(_) | InsnKind::GlobalGet(_)
            | InsnKind::GlobalSet(_) => self.check_access(labels, insn, stack, unreachable),
            _ => self.check_plain(labels, insn, stack, unreachable),
        }
    }

    /// Runs a block, loop or if.
    fn check_nested(
        &self,
        labels: &mut Vec<Option<ValType>>,
        insn: &Instruction,
        stack: &mut Vec<Option<ValType>>,
        unreachable: &mut bool,
    ) -> (r: Result<(), Error<'a>>)
        requires
            insn.kind is Block || insn.kind is Loop || insn.kind is If,
        ensures
            final(labels)@ == old(labels)@,
            step_agrees(
                r,
                self.insn_verdict(old(labels)@, *insn, frame(old(stack)@, *old(unreachable))),
                final(stack)@,
                *final(unreachable),
                self.ctx.source,
            ),
        decreases *insn, 1nat,
    {
        let at = insn.start;
        let unr = *unreachable;
        match &insn.kind {
            InsnKind::Block { ty, body } => match self.check_block(labels, body, *ty, *ty, at) {
                Err(e) => Err(e),
                Ok(_) => {
                    Self::give_opt(stack, *ty);
                    Ok(())
                },
            },
            InsnKind::Loop { ty, body } => match self.check_block(labels, body, None, *ty, at) {
                Err(e) => Err(e),
                Ok(_) => {
                    Self::give_opt(stack, *ty);
                    Ok(())
                },
            },
            InsnKind::If { ty, then_body, else_body } => {
                match self.take_expect(stack, unr, ValType::I32, at) {
                    Err(e) => return Err(e),
                    Ok(_) => {},
                }
                match self.check_block(labels, then_body, *ty, *ty, at) {
                    Err(e) => return Err(e),
                    Ok(_) => {},
                }
                match self.check_block(labels, else_body, *ty, *ty, at) {
                    Err(e) => return Err(e),
                    Ok(_) => {},
                }
                Self::give_opt(stack, *ty);
                Ok(())
            },
            _ => Ok(()),
        }
    }

    /// Runs an instruction that may leave the block: `unreachable`, `nop`, a branch or `return`.
    fn check_branch(
        &self,
        labels: &mut Vec<Option<ValType>>,
        insn: &Instruction,
        stack: &mut Vec<Option<ValType>>,
        unreachable: &mut bool,
    ) -> (r: Result<(), Error<'a>>)
        requires
            insn.kind is Unreachable || insn.kind is Nop || insn.kind is Br || insn.kind is BrIf || insn.kind is BrTable || insn.kind is Return,
        ensures
            final(labels)@ == old(labels)@,
            step_agrees(
                r,
                self.insn_verdict(old(labels)@, *insn, frame(old(stack)@, *old(unreachable))),
                final(stack)@,
                *final(unreachable),
                self.ctx.source,
            ),
    {
        let at = insn.start;
        let unr = *unreachable;
        match &insn.kind {
            InsnKind::Unreachable => {
                Self::kill(stack, unreachable);
                Ok(())
            },
            InsnKind::Nop => Ok(()),
            InsnKind::Br(l) => {
                if *l as usize >= labels.len() {
                    return self.ctx.error(
                        ErrorKind::UnknownLabel { idx: *l, depth: labels.len() },
                        at,
                    );
                }
                match self.take_opt(stack, unr, Self::label(labels, *l), at) {
                    Err(e) => return Err(e),
                    Ok(_) => {},
                }
                Self::kill(stack, unreachable);
                Ok(())
            },
            InsnKind::BrIf(l) => {
                if *l as usize >= labels.len() {
                    return self.ctx.error(
                        ErrorKind::UnknownLabel { idx: *l, depth: labels.len() },
                        at,
                    );
                }
                match self.take_expect(stack, unr, ValType::I32, at) {
                    Err(e) => return Err(e),
                    Ok(_) => {},
                }
                let lt = Self::label(labels, *l);
                match self.take_opt(stack, unr, lt, at) {
                    Err(e) => return Err(e),
                    Ok(_) => {},
                }
                Self::give_opt(stack, lt);
                Ok(())
            },
            InsnKind::BrTable { labels: ls, default_label } => {
                match self.take_expect(stack, unr, ValType::I32, at) {
                    Err(e) => return Err(e),
                    Ok(_) => {},
                }
                let d = *default_label;
                if d as usize >= labels.len() {
                    return self.ctx.error(
                        ErrorKind::UnknownLabel { idx: d, depth: labels.len() },
                        at,
                    );
                }
                let lt = Self::label(labels, d);
                match self.check_targets(labels, ls, lt, at) {
                    Err(e) => return Err(e),
                    Ok(_) => {},
                }
                match self.take_opt(stack, unr, lt, at) {
                    Err(e) => return Err(e),
                    Ok(_) => {},
                }
                Self::kill(stack, unreachable);
                Ok(())
            },
            InsnKind::Return => {
                match self.take_opt(stack, unr, self.ret, at) {
                    Err(e) => return Err(e),
                    Ok(_) => {},
                }
                Self::kill(stack, unreachable);
                Ok(())
            },
            _ => Ok(()),
        }
    }

    /// Runs a call or an access to a local or global variable.
    fn check_access(
        &self,
        labels: &mut Vec<Option<ValType>>,
        insn: &Instruction,
        stack: &mut Vec<Option<ValType>>,
        unreachable: &mut bool,
    ) -> (r: Result<(), Error<'a>>)
        requires
            insn.kind is Call || insn.kind is CallIndirect || insn.kind is LocalGet || insn.kind is LocalSet || insn.kind is LocalTee || insn.kind is GlobalGet || insn.kind is GlobalSet,
        ensures
            final(labels)@ == old(labels)@,
            step_agrees(
                r,
                self.insn_verdict(old(labels)@, *insn, frame(old(stack)@, *old(unreachable))),
                final(stack)@,
                *final(unreachable),
                self.ctx.source,
            ),
    {
        let at = insn.start;
        let unr = *unreachable;
        match &insn.kind {
            InsnKind::Call(fi) => {
                let func = match self.ctx.func_from_idx(*fi, at) {
                    Err(e) => return Err(e),
                    Ok(func) => func,
                };
                let ft = match self.ctx.type_from_idx(func.idx, at) {
                    Err(e) => return Err(e),
                    Ok(ft) => ft,
                };
                self.apply(stack, unr, &ft.params, &ft.results, at)
            },
            InsnKind::CallIndirect(ti) => {
                match self.ctx.table_from_idx(0, at) {
                    Err(e) => return Err(e),
                    Ok(_) => {},
                }
                let ft = match self.ctx.type_from_idx(*ti, at) {
                    Err(e) => return Err(e),
                    Ok(ft) => ft,
                };
                match self.take_expect(stack, unr, ValType::I32, at) {
                    Err(e) => return Err(e),
                    Ok(_) => {},
                }
                self.apply(stack, unr, &ft.params, &ft.results, at)
            },
            InsnKind::LocalGet(i) => {
                if *i as usize >= self.locals.len() {
                    return self.ctx.error(
                        ErrorKind::IndexOutOfBounds {
                            idx: *i,
                            upper: self.locals.len(),
                            what: IndexSpace::Local,
                        },
                        at,
                    );
                }
                stack.push(Some(self.locals[*i as usize]));
                Ok(())
            },
            InsnKind::LocalSet(i) => {
                if *i as usize >= self.locals.len() {
                    return self.ctx.error(
                        ErrorKind::IndexOutOfBounds {
                            idx: *i,
                            upper: self.locals.len(),
                            what: IndexSpace::Local,
                        },
                        at,
                    );
                }
                self.take_expect(stack, unr, self.locals[*i as usize], at)
            },
            InsnKind::LocalTee(i) => {
                if *i as usize >= self.locals.len() {
                    return self.ctx.error(
                        ErrorKind::IndexOutOfBounds {
                            idx: *i,
                            upper: self.locals.len(),
                            what: IndexSpace::Local,
                        },
                        at,
                    );
                }
                let t = self.locals[*i as usize];
                match self.take_expect(stack, unr, t, at) {
                    Err(e) => return Err(e),
                    Ok(_) => {},
                }
                stack.push(Some(t));
                Ok(())
            },
            InsnKind::GlobalGet(i) => {
                let g = match self.ctx.global_from_idx(*i, at) {
                    Err(e) => return Err(e),
                    Ok(g) => g,
                };
                stack.push(Some(g.ty));
                Ok(())
            },
            InsnKind::GlobalSet(i) => {
                let g = match self.ctx.global_from_idx(*i, at) {
                    Err(e) => return Err(e),
                    Ok(g) => g,
                };
                if !g.mutable {
                    return self.ctx.error(ErrorKind::ImmutableGlobal { idx: *i }, at);
                }
                self.take_expect(stack, unr, g.ty, at)
            },
            _ => Ok(()),
        }
    }

    /// Runs an instruction with a fixed effect on the operand stack.
    fn check_plain(
        &self,
        labels: &mut Vec<Option<ValType>>,
        insn: &Instruction,
        stack: &mut Vec<Option<ValType>>,
        unreachable: &mut bool,
    ) -> (r: Result<(), Error<'a>>)
        requires
            insn.kind is Drop || insn.kind is Select || insn.kind is Load || insn.kind is Store
                || insn.kind is MemorySize || insn.kind is MemoryGrow || insn.kind is Const
                || insn.kind is Unary || insn.kind is Binary || insn.kind is Test
                || insn.kind is Compare || insn.kind is Convert,
        ensures
            final(labels)@ == old(labels)@,
            step_agrees(
                r,
                self.insn_verdict(old(labels)@, *insn, frame(old(stack)@, *old(unreachable))),
                final(stack)@,
                *final(unreachable),
                self.ctx.source,
            ),
    {
        let at = insn.start;
        let unr = *unreachable;
        match &insn.kind {
            InsnKind::Drop => match self.take(stack, unr, at) {
                Err(e) => Err(e),
                Ok(_) => Ok(()),
            },
            InsnKind::Select => self.check_select(stack, unr, at),
            _ => self.check_numeric(labels, insn, stack, unreachable),
        }
    }

    /// Runs a memory or numeric instruction.
    fn check_numeric(
        &self,
        labels: &Vec<Option<ValType>>,
        insn: &Instruction,
        stack: &mut Vec<Option<ValType>>,
        unreachable: &mut bool,
    ) -> (r: Result<(), Error<'a>>)
        requires
            insn.kind is Load || insn.kind is Store || insn.kind is MemorySize
                || insn.kind is MemoryGrow || insn.kind is Const || insn.kind is Unary
                || insn.kind is Binary || insn.kind is Test || insn.kind is Compare
                || insn.kind is Convert,
        ensures
            step_agrees(
                r,
                self.insn_verdict(labels@, *insn, frame(old(stack)@, *old(unreachable))),
                final(stack)@,
                *final(unreachable),
                self.ctx.source,
            ),
    {
        let at = insn.start;
        let unr = *unreachable;
        match &insn.kind {
            InsnKind::Load(t) => self.apply(stack, unr, &kinds1(ValType::I32), &kinds1(*t), at),
            InsnKind::Store(t) => self.apply(stack, unr, &kinds2(ValType::I32, *t), &kinds0(), at),
            InsnKind::MemorySize => self.apply(stack, unr, &kinds0(), &kinds1(ValType::I32), at),
            InsnKind::MemoryGrow => self.apply(stack, unr, &kinds1(ValType::I32), &kinds1(ValType::I32), at),
            InsnKind::Const(t) => self.apply(stack, unr, &kinds0(), &kinds1(*t), at),
            InsnKind::Unary(t) => self.apply(stack, unr, &kinds1(*t), &kinds1(*t), at),
            InsnKind::Binary(t) => self.apply(stack, unr, &kinds2(*t, *t), &kinds1(*t), at),
            InsnKind::Test(t) => self.apply(stack, unr, &kinds1(*t), &kinds1(ValType::I32), at),
            InsnKind::Compare(t) => self.apply(stack, unr, &kinds2(*t, *t), &kinds1(ValType::I32), at),
            InsnKind::Convert { from, to } => self.apply(stack, unr, &kinds1(*from), &kinds1(*to), at),
            _ => Ok(()),
        }
    }

    /// `select`: an `i32` condition over two operands of one kind.
    fn check_select(&self, stack: &mut Vec<Option<ValType>>, unr: bool, at: usize) -> (r: Result<
        (),
        Error<'a>,
    >)
        ensures
            step_agrees(
                r,
                match pop_expect(frame(old(stack)@, unr), ValType::I32, at) {
                    Err(e) => Err(e),
                    Ok(g) => match pop(g, at) {
                        Err(e) => Err(e),
                        Ok((g1, a)) => match pop(g1, at) {
                            Err(e) => Err(e),
                            Ok((g2, b)) => match (a, b) {
                                (Some(x), Some(y)) => if x == y {
                                    Ok(frame(g2.stack.push(a), g2.unreachable))
                                } else {
                                    Err((Fault::TypeMismatch { expected: x, actual: y }, at))
                                },
                                (Some(_), None) => Ok(frame(g2.stack.push(a), g2.unreachable)),
                                (None, _) => Ok(frame(g2.stack.push(b), g2.unreachable)),
                            },
                        },
                    },
                },
                final(stack)@,
                unr,
                self.ctx.source,
            ),
    {
        match self.take_expect(stack, unr, ValType::I32, at) {
            Err(e) => return Err(e),
            Ok(_) => {},
        }
        let a = match self.take(stack, unr, at) {
            Err(e) => return Err(e),
            Ok(a) => a,
        };
        let b = match self.take(stack, unr, at) {
            Err(e) => return Err(e),
            Ok(b) => b,
        };
        match (a, b) {
            (Some(x), Some(y)) => {
                if x != y {
                    return self.ctx.error(
                        ErrorKind::TypeMismatch { expected: x, actual: y },
                        at,
                    );
                }
                stack.push(a);
            },
            (Some(_), None) => stack.push(a),
            (None, _) => stack.push(b),
        }
        Ok(())
    }

    /// Reads operands of kinds `ins` and yields `outs`.
    fn apply(
        &self,
        stack: &mut Vec<Option<ValType>>,
        unreachable: bool,
        ins: &Vec<ValType>,
        outs: &Vec<ValType>,
        at: usize,
    ) -> (r: Result<(), Error<'a>>)
        ensures
            step_agrees(
                r,
                effect(frame(old(stack)@, unreachable), ins@, outs@, at),
                final(stack)@,
                unreachable,
                self.ctx.source,
            ),
    {
        let mut i: usize = ins.len();
        proof {
            assert(ins@.take(i as int) =~= ins@);
        }
        while i > 0
            invariant
                i <= ins@.len(),
                pop_all(frame(old(stack)@, unreachable), ins@, at) == pop_all(
                    frame(stack@, unreachable),
                    ins@.take(i as int),
                    at,
                ),
            decreases i,
        {
            proof {
                assert(ins@.take(i as int).drop_last() =~= ins@.take(i - 1));
            }
            match self.take_expect(stack, unreachable, ins[i - 1], at) {
                Err(e) => return Err(e),
                Ok(_) => {},
            }
            i = i - 1;
        }
        proof {
            assert(ins@.take(0) =~= Seq::<ValType>::empty());
        }
        let ghost mid = stack@;
        let mut j: usize = 0;
        while j < outs.len()
            invariant
                j <= outs@.len(),
                stack@ == mid + outs@.take(j as int).map_values(|t: ValType| Some(t)),
            decreases outs@.len() - j,
        {
            stack.push(Some(outs[j]));
            proof {
                assert(outs@.take(j + 1).map_values(|t: ValType| Some(t)) =~= outs@.take(
                    j as int,
                ).map_values(|t: ValType| Some(t)).push(Some(outs@[j as int])));
            }
            j = j + 1;
        }
        proof {
            assert(outs@.take(j as int) =~= outs@);
        }
        Ok(())
    }
}

/// A copy of an operand stack.
fn copy_stack(v: &Vec<Option<ValType>>) -> (r: Vec<Option<ValType>>)
    ensures
        r@ == v@,
{
    let mut r: Vec<Option<ValType>> = Vec::new();
    let mut i: usize = 0;
    while i < v.len()
        invariant
            i <= v@.len(),
            r@ == v@.take(i as int),
        decreases v@.len() - i,
    {
        r.push(v[i]);
        proof {
            assert(v@.take(i + 1) =~= v@.take(i as int).push(v@[i as int]));
        }
        i = i + 1;
    }
    proof {
        assert(v@.take(i as int) =~= v@);
    }
    r
}

/// Type-checks the body `expr` of a function with locals `locals` and result
/// `ret`; a failure at the end of the body is reported at `offset`.
pub fn validate_func_body<'m, 'a>(
    expr: &Vec<Instruction>,
    locals: &Vec<ValType>,
    ret: Option<ValType>,
    ctx: &Context<'m, 'a>,
    offset: usize,
) -> (r: Result<(), Error<'a>>)
    ensures
        agrees(r, check_body(ctx.module, locals@, ret, expr@, offset), ctx.source),
{
    let checker = BodyChecker { ctx, locals, ret };
    let mut labels: Vec<Option<ValType>> = Vec::new();
    labels.push(ret);
    proof {
        assert(labels@ =~= seq![ret]);
    }
    let mut stack: Vec<Option<ValType>> = Vec::new();
    let mut unreachable = false;
    match checker.check_seq(&mut labels, expr, &mut stack, &mut unreachable) {
        Err(e) => return Err(e),
        Ok(_) => {},
    }
    let left = copy_stack(&stack);
    match checker.end_block(&mut stack, unreachable, ret, offset) {
        Ok(_) => Ok(()),
        Err(_) => ctx.error(ErrorKind::ReturnTypeMismatch { expected: ret, actual: left }, offset),
    }
}

} // verus!
