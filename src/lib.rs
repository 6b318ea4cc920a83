//! Static validation of a parsed module: every index in bounds, every
//! signature admissible and every function body type-correct.
use vstd::prelude::*;

pub mod ast;
pub mod error;
pub mod insn;
pub mod lemmas;

use crate::ast::{Func, FuncKind, FuncType, Global, Import, Module, Table, ValType};
use crate::error::{agrees, fails_with, Error, ErrorKind, Fault, IndexSpace, Located};
use crate::insn::{check_body, out_of_bounds, validate_func_body};

verus! {

/// What validation reads: the module and the text its offsets point into.
/// It only borrows them.
pub struct Context<'m, 'a> {
    pub module: &'m Module,
    pub source: &'a str,
}

impl<'m, 'a> Context<'m, 'a> {
    /// A failure of kind `kind` at `offset` in this context's source.
    pub fn error<T>(&self, kind: ErrorKind, offset: usize) -> (r: Result<T, Error<'a>>)
        ensures
            r is Err,
            r->Err_0.kind == kind,
            r->Err_0.offset == offset,
            r->Err_0.source == self.source,
    {
        Err(Error::new(kind, offset, self.source))
    }

    /// The entry `idx` of `s`, or an out-of-bounds failure that names the
    /// index space `what` and the bound `s.len()`.
    pub fn validate_idx<T>(&self, s: &'m Vec<T>, idx: u32, what: IndexSpace, offset: usize) -> (r:
        Result<&'m T, Error<'a>>)
        ensures
            (idx < s@.len()) == (r is Ok),
            r is Ok ==> *r->Ok_0 == s@[idx as int],
            r is Err ==> fails_with(r, out_of_bounds(idx, s@.len() as int, what, offset), self.source),
    {
        if (idx as usize) < s.len() {
            Ok(&s[idx as usize])
        } else {
            self.error(ErrorKind::IndexOutOfBounds { idx, upper: s.len(), what }, offset)
        }
    }

    /// The function type at `idx`, or an out-of-bounds failure at `offset`.
    pub fn type_from_idx(&self, idx: u32, offset: usize) -> (r: Result<&'m FuncType, Error<'a>>)
        ensures
            (idx < self.module.types@.len()) == (r is Ok),
            r is Ok ==> *r->Ok_0 == self.module.types@[idx as int],
            r is Err ==> fails_with(
                r,
                out_of_bounds(idx, self.module.types@.len() as int, IndexSpace::Type, offset),
                self.source,
            ),
    {
        self.validate_idx(&self.module.types, idx, IndexSpace::Type, offset)
    }

    /// The function at `idx`, or an out-of-bounds failure at `offset`.
    pub fn func_from_idx(&self, idx: u32, offset: usize) -> (r: Result<&'m Func, Error<'a>>)
        ensures
            (idx < self.module.funcs@.len()) == (r is Ok),
            r is Ok ==> *r->Ok_0 == self.module.funcs@[idx as int],
            r is Err ==> fails_with(
                r,
                out_of_bounds(idx, self.module.funcs@.len() as int, IndexSpace::Function, offset),
                self.source,
            ),
    {
        self.validate_idx(&self.module.funcs, idx, IndexSpace::Function, offset)
    }

    /// The table at `idx`, or an out-of-bounds failure at `offset`.
    pub fn table_from_idx(&self, idx: u32, offset: usize) -> (r: Result<&'m Table, Error<'a>>)
        ensures
            (idx < self.module.tables@.len()) == (r is Ok),
            r is Ok ==> *r->Ok_0 == self.module.tables@[idx as int],
            r is Err ==> fails_with(
                r,
                out_of_bounds(idx, self.module.tables@.len() as int, IndexSpace::Table, offset),
                self.source,
            ),
    {
        self.validate_idx(&self.module.tables, idx, IndexSpace::Table, offset)
    }

    /// The global variable at `idx`, or an out-of-bounds failure at `offset`.
    pub fn global_from_idx(&self, idx: u32, offset: usize) -> (r: Result<&'m Global, Error<'a>>)
        ensures
            (idx < self.module.globals@.len()) == (r is Ok),
            r is Ok ==> *r->Ok_0 == self.module.globals@[idx as int],
            r is Err ==> fails_with(
                r,
                out_of_bounds(idx, self.module.globals@.len() as int, IndexSpace::Global, offset),
                self.source,
            ),
    {
        self.validate_idx(&self.module.globals, idx, IndexSpace::Global, offset)
    }
}

/// A declaration that can be validated against a module.
pub trait Validate {
    /// The verdict on this declaration: the first failure, if any.
    spec fn outcome(&self, m: &Module) -> Result<(), Located>;

    fn validate<'m, 'a>(&self, ctx: &Context<'m, 'a>) -> (r: Result<(), Error<'a>>)
        ensures
            agrees(r, self.outcome(ctx.module), ctx.source),
    ;
}

/// The verdict on a list of declarations: the first failure in order.
pub open spec fn first_failure<V: Validate>(m: &Module, items: Seq<V>) -> Result<(), Located>
    decreases items.len(),
{
    if items.len() == 0 {
        Ok(())
    } else {
        match items[0].outcome(m) {
            Err(e) => Err(e),
            Ok(_) => first_failure(m, items.drop_first()),
        }
    }
}

impl<V: Validate> Validate for Vec<V> {
    open spec fn outcome(&self, m: &Module) -> Result<(), Located> {
        first_failure(m, self@)
    }

    fn validate<'m, 'a>(&self, ctx: &Context<'m, 'a>) -> (r: Result<(), Error<'a>>) {
        let mut i: usize = 0;
        proof {
            assert(self@.skip(0) =~= self@);
        }
        while i < self.len()
            invariant
                i <= self@.len(),
                first_failure(ctx.module, self@) == first_failure(ctx.module, self@.skip(i as int)),
            decreases self@.len() - i,
        {
            proof {
                assert(self@.skip(i as int).drop_first() =~= self@.skip(i + 1));
            }
            match self[i].validate(ctx) {
                Err(e) => return Err(e),
                Ok(_) => {},
            }
            i = i + 1;
        }
        Ok(())
    }
}

impl<V: Validate> Validate for Option<V> {
    open spec fn outcome(&self, m: &Module) -> Result<(), Located> {
        match self {
            Some(node) => node.outcome(m),
            None => Ok(()),
        }
    }

    fn validate<'m, 'a>(&self, ctx: &Context<'m, 'a>) -> (r: Result<(), Error<'a>>) {
        match self {
            Some(node) => node.validate(ctx),
            None => Ok(()),
        }
    }
}

/// The verdict on a module: function types, then functions; the first
/// failure wins.
pub open spec fn module_outcome(m: &Module) -> Result<(), Located> {
    m.outcome(m)
}

impl Validate for Module {
    open spec fn outcome(&self, m: &Module) -> Result<(), Located> {
        match first_failure(m, self.types@) {
            Err(e) => Err(e),
            Ok(_) => first_failure(m, self.funcs@),
        }
    }

    fn validate<'m, 'a>(&self, ctx: &Context<'m, 'a>) -> (r: Result<(), Error<'a>>) {
        match self.types.validate(ctx) {
            Err(e) => return Err(e),
            Ok(_) => {},
        }
        // Tables and memories are not checked yet.
        self.funcs.validate(ctx)
    }
}

/// A function type may declare at most one result.
pub open spec fn functype_outcome(ft: FuncType) -> Result<(), Located> {
    if ft.results@.len() > 1 {
        Err((Fault::MultipleReturnTypes(ft.results@), ft.start))
    } else {
        Ok(())
    }
}

/// A copy of a list of kinds.
fn copy_kinds(v: &Vec<ValType>) -> (r: Vec<ValType>)
    ensures
        r@ == v@,
{
    let mut r: Vec<ValType> = Vec::new();
    let mut i: usize = 0;
    while i < v.len()
        invariant
            i <= v@.len(),
            r@ == v@.take(i as int),
        decreases v@.len() - i,
    {
        r.push(v[i]);
        proof {
            assert(v@.take(i + 1) =~= v@.take(i as int).push(v@[i as int]));
        }
        i = i + 1;
    }
    proof {
        assert(v@.take(i as int) =~= v@);
    }
    r
}

impl Validate for FuncType {
    open spec fn outcome(&self, m: &Module) -> Result<(), Located> {
        functype_outcome(*self)
    }

    fn validate<'m, 'a>(&self, ctx: &Context<'m, 'a>) -> (r: Result<(), Error<'a>>) {
        if self.results.len() > 1 {
            ctx.error(ErrorKind::MultipleReturnTypes(copy_kinds(&self.results)), self.start)
        } else {
            Ok(())
        }
    }
}

/// An import is accepted when it comes from module `env`, or when its item
/// is named `print`: either one suffices.
pub open spec fn import_accepted(mod_name: Seq<char>, name: Seq<char>) -> bool {
    mod_name == "env"@ || name == "print"@
}

pub open spec fn import_outcome(import: Import, at: usize) -> Result<(), Located> {
    if import_accepted(import.mod_name@, import.name@) {
        Ok(())
    } else {
        Err((Fault::UnknownImport { mod_name: import.mod_name@, name: import.name@ }, at))
    }
}

/// Checks an import binding; a failure is reported at `offset`.
pub fn validate_import<'m, 'a>(import: &Import, ctx: &Context<'m, 'a>, offset: usize) -> (r: Result<
    (),
    Error<'a>,
>)
    ensures
        agrees(r, import_outcome(*import, offset), ctx.source),
{
    let env = String::from_str("env");
    let print = String::from_str("print");
    if !(import.mod_name == env) && !(import.name == print) {
        let mod_name = import.mod_name.clone();
        let name = import.name.clone();
        ctx.error(ErrorKind::UnknownImport { mod_name, name }, offset)
    } else {
        Ok(())
    }
}

/// The first parameter position `i` (from `from` on) where the local does
/// not carry the parameter's kind.
pub open spec fn param_outcome(params: Seq<ValType>, locals: Seq<ValType>, from: int, at: usize) -> Result<
    (),
    Located,
>
    decreases params.len() - from,
{
    if from < 0 || from >= params.len() {
        Ok(())
    } else if locals[from] != params[from] {
        Err(
            (
                Fault::ParamTypeMismatchWithLocal {
                    idx: from as usize,
                    param: params[from],
                    local: locals[from],
                },
                at,
            ),
        )
    } else {
        param_outcome(params, locals, from + 1, at)
    }
}

/// The single result of a function type that has at most one.
pub open spec fn result_of(ft: FuncType) -> Option<ValType> {
    if ft.results@.len() > 0 {
        Some(ft.results@[0])
    } else {
        None
    }
}

/// The verdict on one function: its type must exist; an import must be
/// admissible; a body's locals must begin with the parameters' kinds and its
/// instructions must type-check.
pub open spec fn func_outcome(m: &Module, f: Func) -> Result<(), Located> {
    if f.idx >= m.types@.len() {
        Err(out_of_bounds(f.idx, m.types@.len() as int, IndexSpace::Type, f.start))
    } else {
        let ft = m.types@[f.idx as int];
        match f.kind {
            FuncKind::Import(import) => import_outcome(import, f.start),
            FuncKind::Body { locals, expr } => if locals@.len() < ft.params@.len() {
                Err(
                    (
                        Fault::TooFewFuncLocalsForParams {
                            params: ft.params@.len() as usize,
                            locals: locals@.len() as usize,
                        },
                        f.start,
                    ),
                )
            } else {
                match param_outcome(ft.params@, locals@, 0, f.start) {
                    Err(e) => Err(e),
                    Ok(_) => check_body(m, locals@, result_of(ft), expr@, f.start),
                }
            },
        }
    }
}

impl Validate for Func {
    open spec fn outcome(&self, m: &Module) -> Result<(), Located> {
        func_outcome(m, *self)
    }

    #[verifier::loop_isolation(false)]
    fn validate<'m, 'a>(&self, ctx: &Context<'m, 'a>) -> (r: Result<(), Error<'a>>) {
        let func_ty = match ctx.type_from_idx(self.idx, self.start) {
            Err(e) => return Err(e),
            Ok(ft) => ft,
        };
        match &self.kind {
            FuncKind::Import(import) => validate_import(import, ctx, self.start),
            FuncKind::Body { locals, expr } => {
                if locals.len() < func_ty.params.len() {
                    return ctx.error(
                        ErrorKind::TooFewFuncLocalsForParams {
                            params: func_ty.params.len(),
                            locals: locals.len(),
                        },
                        self.start,
                    );
                }
                let mut i: usize = 0;
                while i < func_ty.params.len()
                    invariant
                        i <= func_ty.params@.len() <= locals@.len(),
                        param_outcome(func_ty.params@, locals@, 0, self.start) == param_outcome(
                            func_ty.params@,
                            locals@,
                            i as int,
                            self.start,
                        ),
                    decreases func_ty.params@.len() - i,
                {
                    let param = func_ty.params[i];
                    let local = locals[i];
                    if local != param {
                        return ctx.error(
                            ErrorKind::ParamTypeMismatchWithLocal { idx: i, param, local },
                            self.start,
                        );
                    }
                    i = i + 1;
                }
                // Function types were checked first: at most one result.
                let ret = if func_ty.results.len() > 0 {
                    Some(func_ty.results[0])
                } else {
                    None
                };
                validate_func_body(expr, locals, ret, ctx, self.start)
            },
        }
    }
}

/// Validates `module`, whose offsets point into `source`: `Ok` exactly when
/// every declaration is well-formed and every body type-checks, else the
/// first failure.
pub fn validate<'m, 'a>(module: &'m Module, source: &'a str) -> (r: Result<(), Error<'a>>)
    ensures
        agrees(r, module_outcome(module), source),
{
    let ctx = Context { module, source };
    module.validate(&ctx)
}

} // verus!
