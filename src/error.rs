//! What went wrong, and where.
use vstd::prelude::*;
use crate::ast::ValType;

verus! {

/// The index space that an out-of-bounds index was meant for.
#[derive(Clone, Copy, Debug, PartialEq, Eq, Structural)]
pub enum IndexSpace {
    Type,
    Function,
    Table,
    Global,
    Local,
}

impl IndexSpace {
    /// The word a message uses for this index space.
    pub fn label(&self) -> (r: &'static str)
        ensures
            *self == IndexSpace::Type ==> r@ == "type"@,
            *self == IndexSpace::Function ==> r@ == "function"@,
            *self == IndexSpace::Table ==> r@ == "table"@,
            *self == IndexSpace::Global ==> r@ == "global variable"@,
            *self == IndexSpace::Local ==> r@ == "local variable"@,
    {
        match self {
            IndexSpace::Type => "type",
            IndexSpace::Function => "function",
            IndexSpace::Table => "table",
            IndexSpace::Global => "global variable",
            IndexSpace::Local => "local variable",
        }
    }
}

/// The closed set of validation failures, with the data each one reports.
#[derive(Clone, Debug)]
pub enum ErrorKind {
    IndexOutOfBounds { idx: u32, upper: usize, what: IndexSpace },
    MultipleReturnTypes(Vec<ValType>),
    UnknownImport { mod_name: String, name: String },
    TooFewFuncLocalsForParams { params: usize, locals: usize },
    ParamTypeMismatchWithLocal { idx: usize, param: ValType, local: ValType },
    /// An instruction needs an operand that its block does not hold.
    StackUnderflow,
    /// An operand of kind `actual` stands where `expected` is needed.
    TypeMismatch { expected: ValType, actual: ValType },
    /// A branch names a label `idx` deeper than the `depth` labels around it.
    UnknownLabel { idx: u32, depth: usize },
    /// The targets of one branch table carry different results.
    LabelTypeMismatch { expected: Option<ValType>, actual: Option<ValType> },
    /// `global.set` on a global that may not be written.
    ImmutableGlobal { idx: u32 },
    /// A block ends with `extra` values beyond its result `expected`.
    BlockResultMismatch { expected: Option<ValType>, extra: usize },
    /// A function body ends with the stack `actual` (bottom first, `None` for
    /// a value of unknown kind), which is not exactly its result `expected`.
    ReturnTypeMismatch { expected: Option<ValType>, actual: Vec<Option<ValType>> },
}

/// The mathematical value of an `ErrorKind`: strings and vectors seen as
/// sequences.
pub ghost enum Fault {
    IndexOutOfBounds { idx: u32, upper: usize, what: IndexSpace },
    MultipleReturnTypes(Seq<ValType>),
    UnknownImport { mod_name: Seq<char>, name: Seq<char> },
    TooFewFuncLocalsForParams { params: usize, locals: usize },
    ParamTypeMismatchWithLocal { idx: usize, param: ValType, local: ValType },
    StackUnderflow,
    TypeMismatch { expected: ValType, actual: ValType },
    UnknownLabel { idx: u32, depth: usize },
    LabelTypeMismatch { expected: Option<ValType>, actual: Option<ValType> },
    ImmutableGlobal { idx: u32 },
    BlockResultMismatch { expected: Option<ValType>, extra: usize },
    ReturnTypeMismatch { expected: Option<ValType>, actual: Seq<Option<ValType>> },
}

impl View for ErrorKind {
    type V = Fault;

    open spec fn view(&self) -> Fault {
        match self {
            ErrorKind::IndexOutOfBounds { idx, upper, what } => Fault::IndexOutOfBounds {
                idx: *idx,
                upper: *upper,
                what: *what,
            },
            ErrorKind::MultipleReturnTypes(v) => Fault::MultipleReturnTypes(v@),
            ErrorKind::UnknownImport { mod_name, name } => Fault::UnknownImport {
                mod_name: mod_name@,
                name: name@,
            },
            ErrorKind::TooFewFuncLocalsForParams { params, locals } =>
                Fault::TooFewFuncLocalsForParams { params: *params, locals: *locals },
            ErrorKind::ParamTypeMismatchWithLocal { idx, param, local } =>
                Fault::ParamTypeMismatchWithLocal { idx: *idx, param: *param, local: *local },
            ErrorKind::StackUnderflow => Fault::StackUnderflow,
            ErrorKind::TypeMismatch { expected, actual } => Fault::TypeMismatch {
                expected: *expected,
                actual: *actual,
            },
            ErrorKind::UnknownLabel { idx, depth } => Fault::UnknownLabel {
                idx: *idx,
                depth: *depth,
            },
            ErrorKind::LabelTypeMismatch { expected, actual } => Fault::LabelTypeMismatch {
                expected: *expected,
                actual: *actual,
            },
            ErrorKind::ImmutableGlobal { idx } => Fault::ImmutableGlobal { idx: *idx },
            ErrorKind::BlockResultMismatch { expected, extra } => Fault::BlockResultMismatch {
                expected: *expected,
                extra: *extra,
            },
            ErrorKind::ReturnTypeMismatch { expected, actual } => Fault::ReturnTypeMismatch {
                expected: *expected,
                actual: actual@,
            },
        }
    }
}

/// A failure located in the source text: its kind, the byte offset it is
/// reported at, and the text the offset points into.
#[derive(Clone, Debug)]
pub struct Error<'a> {
    pub kind: ErrorKind,
    pub offset: usize,
    pub source: &'a str,
}

impl<'a> Error<'a> {
    pub fn new(kind: ErrorKind, offset: usize, source: &'a str) -> (r: Error<'a>)
        ensures
            r.kind == kind,
            r.offset == offset,
            r.source == source,
    {
        Error { kind, offset, source }
    }
}

/// A failure as the spec functions describe it: what and at which offset.
pub type Located = (Fault, usize);

/// Whether an executable result matches the described one, for a given
/// source text.
pub open spec fn agrees<'a, T>(r: Result<T, Error<'a>>, s: Result<(), Located>, source: &'a str) -> bool {
    match (r, s) {
        (Ok(_), Ok(_)) => true,
        (Err(e), Err(l)) => e.kind@ == l.0 && e.offset == l.1 && e.source == source,
        _ => false,
    }
}

/// `r` is the located failure `e`, pointing into `source`.
pub open spec fn fails_with<'a, T>(r: Result<T, Error<'a>>, e: Located, source: &'a str) -> bool {
    &&& r is Err
    &&& r->Err_0.kind@ == e.0
    &&& r->Err_0.offset == e.1
    &&& r->Err_0.source == source
}

} // verus!
