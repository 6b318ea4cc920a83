//! The module tree that validation reads. A parser builds it; validation only
//! reads it.
use vstd::prelude::*;

verus! {

/// The kind of a value on the operand stack, of a local or of a global.
#[derive(Clone, Copy, Debug, PartialEq, Eq, Structural)]
pub enum ValType {
    I32,
    I64,
    F32,
    F64,
}

/// A signature: parameter kinds and result kinds.
#[derive(Clone, Debug)]
pub struct FuncType {
    pub start: usize,
    pub params: Vec<ValType>,
    pub results: Vec<ValType>,
}

/// An import binding: the module it comes from and the item's name there.
#[derive(Clone, Debug)]
pub struct Import {
    pub mod_name: String,
    pub name: String,
}

/// A function is either imported or defined by locals and a body.
#[derive(Debug)]
pub enum FuncKind {
    Import(Import),
    Body { locals: Vec<ValType>, expr: Vec<Instruction> },
}

/// A function: the index of its type, where it starts, and its kind.
#[derive(Debug)]
pub struct Func {
    pub start: usize,
    pub idx: u32,
    pub kind: FuncKind,
}

/// A table declaration. Validation only needs to know that it exists.
#[derive(Clone, Copy, Debug)]
pub struct Table {
    pub start: usize,
}

/// A global variable: its kind and whether it may be written.
#[derive(Clone, Copy, Debug)]
pub struct Global {
    pub start: usize,
    pub mutable: bool,
    pub ty: ValType,
}

/// One instruction and the offset where it starts in the source text.
#[derive(Debug)]
pub struct Instruction {
    pub start: usize,
    pub kind: InsnKind,
}

/// Instructions, grouped by their effect on the operand stack. Numeric
/// operations are described by the kinds they read and write; the exact
/// operation does not change how they type-check.
#[derive(Debug)]
pub enum InsnKind {
    /// A block; `ty` is its optional result.
    Block { ty: Option<ValType>, body: Vec<Instruction> },
    /// A loop; a branch to it carries no value, falling out of it yields `ty`.
    Loop { ty: Option<ValType>, body: Vec<Instruction> },
    /// Pops an `i32` condition, then runs one of two arms with result `ty`.
    If { ty: Option<ValType>, then_body: Vec<Instruction>, else_body: Vec<Instruction> },
    Unreachable,
    Nop,
    Br(u32),
    BrIf(u32),
    BrTable { labels: Vec<u32>, default_label: u32 },
    Return,
    Call(u32),
    CallIndirect(u32),
    Drop,
    Select,
    LocalGet(u32),
    LocalSet(u32),
    LocalTee(u32),
    GlobalGet(u32),
    GlobalSet(u32),
    /// A load of any width: `i32` address to a value of kind `ty`.
    Load(ValType),
    /// A store of any width: `i32` address and a value of kind `ty`.
    Store(ValType),
    MemorySize,
    MemoryGrow,
    /// A constant of the given kind.
    Const(ValType),
    /// `t -> t` (clz, neg, sqrt, extend8_s, ...).
    Unary(ValType),
    /// `t t -> t` (add, div, copysign, ...).
    Binary(ValType),
    /// `t -> i32` (eqz).
    Test(ValType),
    /// `t t -> i32` (eq, lt, ge, ...).
    Compare(ValType),
    /// `from -> to` (wrap, extend, trunc, convert, demote, promote, reinterpret).
    Convert { from: ValType, to: ValType },
}

/// The declarations of a module that validation reads.
#[derive(Debug)]
pub struct Module {
    pub types: Vec<FuncType>,
    pub funcs: Vec<Func>,
    pub tables: Vec<Table>,
    pub globals: Vec<Global>,
}

} // verus!
