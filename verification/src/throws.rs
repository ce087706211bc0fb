//! The rewriting of one annotated definition.
//!
//! The return type becomes the wrapper around the declared type and the
//! failure type, and the body becomes what hands back outcomes. One
//! [`Throws`] rewrites one definition, in stages.

use crate::args::{
    default_error_model, resolve_model, ret_model, tokens_view, used_model, ArgToken, Args,
    ArgsModel, TransformError,
};
use crate::rewrite::{
    block_raises_empty, finish_body, lemma_rewrite_exprs, lemma_rewrite_stmts, raises_empty,
    rewrite_block, rewrite_body, rewrite_expr, rewrite_exprs, rewrite_stmt, rewrite_stmts,
    stmt_raises_empty, success,
};
use crate::syntax::{
    boxed_view, exprs_view, group_syntax_views, lemma_block_view, lemma_expr_view, stmts_view,
    Block, BlockModel, Definition, DefinitionModel, Expr, ExprModel, ImplItemMethod, ItemFn,
    ItemFnModel, ReturnType, ReturnTypeModel, Signature, SignatureModel, Stmt, StmtModel,
    TraitItemMethod, TraitItemMethodModel,
};
use crate::types::TypeModel;
use vstd::prelude::*;

verus! {

/// Whether a return type declares the unit type: none is written, or `()`.
pub open spec fn declares_unit(ret: ReturnTypeModel) -> bool {
    ret is Default || ret == ReturnTypeModel::Type(TypeModel::Unit)
}

/// The rewritten signature and body of a function. The return type is
/// rewritten first; a raise without a value is refused where the wrapper
/// takes a failure type.
pub open spec fn sig_and_body_model(
    args: ArgsModel,
    sig: SignatureModel,
    body: BlockModel,
) -> Result<(SignatureModel, BlockModel), TransformError> {
    match ret_model(args, sig.output) {
        Err(e) => Err(e),
        Ok(output) => if args.error is Some && block_raises_empty(body) {
            Err(TransformError::EmptyRaise)
        } else {
            Ok((SignatureModel { output, ..sig }, rewrite_body(body, declares_unit(sig.output))))
        },
    }
}

/// The rewritten function.
pub open spec fn item_fn_model(args: ArgsModel, f: ItemFnModel) -> Result<
    ItemFnModel,
    TransformError,
> {
    match sig_and_body_model(args, f.sig, f.block) {
        Ok((sig, block)) => Ok(ItemFnModel { sig, block, ..f }),
        Err(e) => Err(e),
    }
}

/// The rewritten trait method: its signature, and its default body if it has one.
pub open spec fn trait_item_method_model(args: ArgsModel, m: TraitItemMethodModel) -> Result<
    TraitItemMethodModel,
    TransformError,
> {
    match ret_model(args, m.sig.output) {
        Err(e) => Err(e),
        Ok(output) => match m.default {
            Some(body) => if args.error is Some && block_raises_empty(body) {
                Err(TransformError::EmptyRaise)
            } else {
                Ok(
                    TraitItemMethodModel {
                        sig: SignatureModel { output, ..m.sig },
                        default: Some(rewrite_body(body, declares_unit(m.sig.output))),
                        ..m
                    },
                )
            },
            None => Ok(TraitItemMethodModel { sig: SignatureModel { output, ..m.sig }, ..m }),
        },
    }
}

/// The rewritten definition. What is no function or method is refused.
pub open spec fn fold_model(args: ArgsModel, def: DefinitionModel) -> Result<
    DefinitionModel,
    TransformError,
> {
    match def {
        DefinitionModel::ItemFn(f) => match item_fn_model(args, f) {
            Ok(g) => Ok(DefinitionModel::ItemFn(g)),
            Err(e) => Err(e),
        },
        DefinitionModel::ImplItemMethod(f) => match item_fn_model(args, f) {
            Ok(g) => Ok(DefinitionModel::ImplItemMethod(g)),
            Err(e) => Err(e),
        },
        DefinitionModel::TraitItemMethod(m) => match trait_item_method_model(args, m) {
            Ok(g) => Ok(DefinitionModel::TraitItemMethod(g)),
            Err(e) => Err(e),
        },
        DefinitionModel::Verbatim(_) => Err(TransformError::NotAFunction),
    }
}

/// Wraps an expression in a success outcome.
pub fn ok(expr: Expr) -> (r: Expr)
    ensures
        r@ == success(expr@),
{
    broadcast use group_syntax_views;

    Expr::Success(Box::new(expr))
}

/// The success outcome of the unit value.
pub fn ok_unit() -> (r: Expr)
    ensures
        r@ == success(ExprModel::Unit),
{
    ok(Expr::Unit)
}

/// What a rewriting of part of a body hands back: the rewritten part, or the
/// refusal of a raise without a value where the wrapper takes a failure type.
pub open spec fn folded<T: View>(
    r: Result<T, TransformError>,
    one_payload: bool,
    raises: bool,
    want: T::V,
) -> bool {
    if !one_payload && raises {
        r == Err::<T, TransformError>(TransformError::EmptyRaise)
    } else {
        r is Ok && r->Ok_0@ == want
    }
}

/// Rewrites an early exit: it hands back the success outcome of its value, or
/// of the unit value if it has none.
pub fn fold_expr_return(value: &Option<Box<Expr>>, one_payload: bool) -> (r: Result<
    Expr,
    TransformError,
>)
    ensures
        folded(
            r,
            one_payload,
            raises_empty(ExprModel::Return(boxed_view(*value))),
            rewrite_expr(ExprModel::Return(boxed_view(*value))),
        ),
    decreases value, 0nat,
{
    broadcast use group_syntax_views;

    let wrapped = match value {
        Some(expr) => match fold_expr(&**expr, one_payload) {
            Ok(e) => ok(e),
            Err(e) => {
                return Err(e);
            },
        },
        None => ok_unit(),
    };
    Ok(Expr::Return(Some(Box::new(wrapped))))
}

/// Rewrites a raise: it becomes an early exit with the failure outcome of its
/// value. A raise without a value becomes an early exit with the empty
/// failure, where the wrapper takes no failure type.
pub fn fold_expr_throw(value: &Option<Box<Expr>>, one_payload: bool) -> (r: Result<
    Expr,
    TransformError,
>)
    ensures
        folded(
            r,
            one_payload,
            raises_empty(ExprModel::Throw(boxed_view(*value))),
            rewrite_expr(ExprModel::Throw(boxed_view(*value))),
        ),
    decreases value, 0nat,
{
    broadcast use group_syntax_views;

    let outcome = match value {
        Some(expr) => match fold_expr(&**expr, one_payload) {
            Ok(e) => Expr::Failure(Box::new(e)),
            Err(e) => {
                return Err(e);
            },
        },
        None => {
            if !one_payload {
                return Err(TransformError::EmptyRaise);
            }
            Expr::EmptyFailure
        },
    };
    Ok(Expr::Return(Some(Box::new(outcome))))
}

/// Rewrites an expression.
pub fn fold_expr(e: &Expr, one_payload: bool) -> (r: Result<Expr, TransformError>)
    ensures
        folded(r, one_payload, raises_empty(e@), rewrite_expr(e@)),
    decreases e, 1nat,
{
    broadcast use group_syntax_views;

    match e {
        Expr::Return(value) => fold_expr_return(value, one_payload),
        Expr::Throw(value) => fold_expr_throw(value, one_payload),
        Expr::Block(b) => match fold_block(b, one_payload) {
            Ok(b) => Ok(Expr::Block(b)),
            Err(e) => Err(e),
        },
        Expr::Composite(parts) => {
            let mut out: Vec<Expr> = Vec::new();
            let mut i: usize = 0;
            proof {
                lemma_rewrite_exprs(exprs_view(parts@), parts@.len());
            }
            while i < parts.len()
                invariant
                    i <= parts.len(),
                    out.len() == i,
                    forall|j: int| 0 <= j < i ==> out[j]@ == rewrite_expr(parts[j]@),
                    forall|j: int| 0 <= j < i ==> one_payload || !raises_empty(parts[j]@),
                    e is Composite,
                    e->Composite_0 == *parts,
                decreases parts.len() - i,
            {
                match fold_expr(&parts[i], one_payload) {
                    Ok(p) => {
                        out.push(p);
                    },
                    Err(err) => {
                        proof {
                            lemma_rewrite_exprs(exprs_view(parts@), parts@.len());
                            assert(raises_empty(exprs_view(parts@)[i as int]));
                            lemma_expr_view(*e);
                        }
                        return Err(err);
                    },
                }
                i += 1;
            }
            let res = Expr::Composite(out);
            proof {
                assert(exprs_view(out@) =~= rewrite_exprs(exprs_view(parts@), parts@.len()));
            }
            Ok(res)
        },
        Expr::Success(v) => match fold_expr(&**v, one_payload) {
            Ok(v) => Ok(Expr::Success(Box::new(v))),
            Err(e) => Err(e),
        },
        Expr::Failure(v) => match fold_expr(&**v, one_payload) {
            Ok(v) => Ok(Expr::Failure(Box::new(v))),
            Err(e) => Err(e),
        },
        Expr::Verbatim(_) => Ok(e.clone()),
        Expr::Unit => Ok(e.clone()),
        Expr::Closure { .. } => Ok(e.clone()),
        Expr::Async { .. } => Ok(e.clone()),
        Expr::EmptyFailure => Ok(e.clone()),
    }
}

/// Rewrites a statement.
pub fn fold_stmt(s: &Stmt, one_payload: bool) -> (r: Result<Stmt, TransformError>)
    ensures
        folded(r, one_payload, stmt_raises_empty(s@), rewrite_stmt(s@)),
    decreases s,
{
    broadcast use group_syntax_views;

    match s {
        Stmt::Local { pattern, init: Some(e) } => match fold_expr(e, one_payload) {
            Ok(e) => Ok(Stmt::Local { pattern: pattern.clone(), init: Some(e) }),
            Err(e) => Err(e),
        },
        Stmt::Local { pattern, init: None } => Ok(s.clone()),
        Stmt::Item(_) => Ok(s.clone()),
        Stmt::Expr(e) => match fold_expr(e, one_payload) {
            Ok(e) => Ok(Stmt::Expr(e)),
            Err(e) => Err(e),
        },
        Stmt::Semi(e) => match fold_expr(e, one_payload) {
            Ok(e) => Ok(Stmt::Semi(e)),
            Err(e) => Err(e),
        },
    }
}

/// Rewrites a block.
pub fn fold_block(b: &Block, one_payload: bool) -> (r: Result<Block, TransformError>)
    ensures
        folded(r, one_payload, block_raises_empty(b@), rewrite_block(b@)),
    decreases b,
{
    broadcast use group_syntax_views;

    let mut out: Vec<Stmt> = Vec::new();
    let mut i: usize = 0;
    proof {
        lemma_rewrite_stmts(stmts_view(b.stmts@), b.stmts@.len());
    }
    while i < b.stmts.len()
        invariant
            i <= b.stmts.len(),
            out.len() == i,
            forall|j: int| 0 <= j < i ==> out[j]@ == rewrite_stmt(b.stmts[j]@),
            forall|j: int| 0 <= j < i ==> one_payload || !stmt_raises_empty(b.stmts[j]@),
        decreases b.stmts.len() - i,
    {
        match fold_stmt(&b.stmts[i], one_payload) {
            Ok(s) => {
                out.push(s);
            },
            Err(err) => {
                proof {
                    lemma_rewrite_stmts(stmts_view(b.stmts@), b.stmts@.len());
                    assert(stmt_raises_empty(stmts_view(b.stmts@)[i as int]));
                    lemma_block_view(*b);
                }
                return Err(err);
            },
        }
        i += 1;
    }
    proof {
        assert(stmts_view(out@) =~= rewrite_stmts(stmts_view(b.stmts@), b.stmts@.len()));
    }
    let tail = match &b.tail {
        Some(t) => match fold_expr(&**t, one_payload) {
            Ok(t) => Some(Box::new(t)),
            Err(e) => {
                return Err(e);
            },
        },
        None => None,
    };
    Ok(Block { stmts: out, tail })
}

/// Ends a rewritten body in a success outcome.
pub fn make_fn_block(inner: Block, unit: bool) -> (r: Block)
    ensures
        r@ == finish_body(inner@, unit),
{
    broadcast use group_syntax_views;

    let Block { stmts, tail } = inner;
    let mut stmts = stmts;
    let ghost before = stmts@;
    match tail {
        Some(t) => {
            if unit {
                stmts.push(Stmt::Semi(*t));
                assert(stmts_view(stmts@) =~= stmts_view(before).push(StmtModel::Semi((*t)@)));
                Block { stmts, tail: Some(Box::new(ok_unit())) }
            } else {
                Block { stmts, tail: Some(Box::new(ok(*t))) }
            }
        },
        None => {
            if unit {
                Block { stmts, tail: Some(Box::new(ok_unit())) }
            } else {
                Block { stmts, tail: None }
            }
        },
    }
}

/// Whether a return type declares the unit type.
pub fn is_unit(ret: &ReturnType) -> (r: bool)
    ensures
        r == declares_unit(ret@),
{
    match ret {
        ReturnType::Default => true,
        ReturnType::Type(t) => t.is_unit(),
    }
}

/// How far the rewriting of a definition has come.
#[derive(Clone, Copy, Debug, PartialEq, Eq, Structural)]
pub enum Stage {
    /// Nothing has been rewritten.
    Unvisited,
    /// The return type has been rewritten.
    HeaderRewritten,
    /// The exits and the raises of the body have been rewritten, its end has not.
    BodyRewritten,
    /// The definition has been rewritten or refused. Nothing more is rewritten.
    Done,
}

/// The rewriting of one definition: the resolved arguments, and how far the
/// rewriting has come.
#[derive(Debug, PartialEq, Eq)]
pub struct Throws {
    args: Args,
    stage: Stage,
}

/// The mathematical value of a [`Throws`].
pub ghost struct ThrowsModel {
    pub args: ArgsModel,
    pub stage: Stage,
}

impl View for Throws {
    type V = ThrowsModel;

    closed spec fn view(&self) -> ThrowsModel {
        ThrowsModel { args: self.args@, stage: self.stage }
    }
}

/// The state after a definition has been rewritten or refused.
pub open spec fn done_model(t: ThrowsModel) -> ThrowsModel {
    ThrowsModel { args: used_model(t.args), stage: Stage::Done }
}

impl Throws {
    /// A rewriting that has not started.
    pub fn new(args: Args) -> (r: Throws)
        ensures
            r@ == (ThrowsModel { args: args@, stage: Stage::Unvisited }),
    {
        Throws { args, stage: Stage::Unvisited }
    }

    /// How far the rewriting has come.
    pub fn stage(&self) -> (r: Stage)
        ensures
            r == self@.stage,
    {
        self.stage
    }

    /// Rewrites a definition. What is no function or method is refused, and
    /// leaves the rewriting where it was. One `Throws` rewrites one
    /// definition: a function or method that it is given after that comes
    /// back as it is.
    pub fn fold(&mut self, input: Definition) -> (r: Result<Definition, TransformError>)
        ensures
            input is Verbatim ==> r == Err::<Definition, TransformError>(
                TransformError::NotAFunction,
            ) && final(self)@ == old(self)@,
            !(input is Verbatim) && old(self)@.stage != Stage::Unvisited ==> r == Ok::<
                Definition,
                TransformError,
            >(input) && final(self)@ == old(self)@,
            !(input is Verbatim) && old(self)@.stage == Stage::Unvisited ==> final(self)@
                == done_model(old(self)@),
            old(self)@.stage == Stage::Unvisited ==> match fold_model(old(self)@.args, input@) {
                Ok(d) => r is Ok && r->Ok_0@ == d,
                Err(e) => r == Err::<Definition, TransformError>(e),
            },
    {
        match input {
            Definition::ItemFn(item_fn) => match self.fold_item_fn(item_fn) {
                Ok(f) => Ok(Definition::ItemFn(f)),
                Err(e) => Err(e),
            },
            Definition::ImplItemMethod(method) => match self.fold_impl_item_method(method) {
                Ok(m) => Ok(Definition::ImplItemMethod(m)),
                Err(e) => Err(e),
            },
            Definition::TraitItemMethod(method) => match self.fold_trait_item_method(method) {
                Ok(m) => Ok(Definition::TraitItemMethod(m)),
                Err(e) => Err(e),
            },
            Definition::Verbatim(_) => Err(TransformError::NotAFunction),
        }
    }

    /// Rewrites the body of the definition, once its return type has been
    /// rewritten: first its exits and raises, then its end.
    fn fold_body(&mut self, body: &Block, one_payload: bool, unit: bool) -> (r: Result<
        Block,
        TransformError,
    >)
        requires
            old(self)@.stage == Stage::HeaderRewritten,
        ensures
            final(self)@ == (ThrowsModel { stage: Stage::Done, ..old(self)@ }),
            folded(r, one_payload, block_raises_empty(body@), rewrite_body(body@, unit)),
    {
        match fold_block(body, one_payload) {
            Ok(inner) => {
                self.stage = Stage::BodyRewritten;
                let finished = make_fn_block(inner, unit);
                self.stage = Stage::Done;
                Ok(finished)
            },
            Err(e) => {
                self.stage = Stage::Done;
                Err(e)
            },
        }
    }

    /// Rewrites a signature and a body, unless a definition has been rewritten
    /// before.
    pub fn fold_sig_and_body(&mut self, sig: Signature, body: Block) -> (r: Result<
        (Signature, Block),
        TransformError,
    >)
        ensures
            old(self)@.stage != Stage::Unvisited ==> r == Ok::<
                (Signature, Block),
                TransformError,
            >((sig, body)) && final(self)@ == old(self)@,
            old(self)@.stage == Stage::Unvisited ==> final(self)@ == done_model(old(self)@),
            old(self)@.stage == Stage::Unvisited ==> match sig_and_body_model(
                old(self)@.args,
                sig@,
                body@,
            ) {
                Ok((s, b)) => r is Ok && r->Ok_0.0@ == s && r->Ok_0.1@ == b,
                Err(e) => r == Err::<(Signature, Block), TransformError>(e),
            },
    {
        if self.stage != Stage::Unvisited {
            return Ok((sig, body));
        }
        let one_payload = !self.args.has_error();
        let unit = is_unit(&sig.output);
        let Signature { header, output, where_clause } = sig;
        let output = match self.fold_return_type(output) {
            Ok(output) => output,
            Err(e) => {
                return Err(e);
            },
        };
        let sig = Signature { header, output, where_clause };
        match self.fold_body(&body, one_payload, unit) {
            Ok(body) => Ok((sig, body)),
            Err(e) => Err(e),
        }
    }

    /// Rewrites a free function.
    pub fn fold_item_fn(&mut self, i: ItemFn) -> (r: Result<ItemFn, TransformError>)
        ensures
            old(self)@.stage != Stage::Unvisited ==> r == Ok::<ItemFn, TransformError>(i)
                && final(self)@ == old(self)@,
            old(self)@.stage == Stage::Unvisited ==> final(self)@ == done_model(old(self)@),
            old(self)@.stage == Stage::Unvisited ==> match item_fn_model(old(self)@.args, i@) {
                Ok(f) => r is Ok && r->Ok_0@ == f,
                Err(e) => r == Err::<ItemFn, TransformError>(e),
            },
    {
        let ItemFn { front, sig, block } = i;
        match self.fold_sig_and_body(sig, block) {
            Ok((sig, block)) => Ok(ItemFn { front, sig, block }),
            Err(e) => Err(e),
        }
    }

    /// Rewrites a method of an `impl` block.
    pub fn fold_impl_item_method(&mut self, i: ImplItemMethod) -> (r: Result<
        ImplItemMethod,
        TransformError,
    >)
        ensures
            old(self)@.stage != Stage::Unvisited ==> r == Ok::<ImplItemMethod, TransformError>(i)
                && final(self)@ == old(self)@,
            old(self)@.stage == Stage::Unvisited ==> final(self)@ == done_model(old(self)@),
            old(self)@.stage == Stage::Unvisited ==> match item_fn_model(old(self)@.args, i@) {
                Ok(f) => r is Ok && r->Ok_0@ == f,
                Err(e) => r == Err::<ImplItemMethod, TransformError>(e),
            },
    {
        let ImplItemMethod { front, sig, block } = i;
        match self.fold_sig_and_body(sig, block) {
            Ok((sig, block)) => Ok(ImplItemMethod { front, sig, block }),
            Err(e) => Err(e),
        }
    }

    /// Rewrites a method of a trait: its signature, and its default body if
    /// it has one.
    pub fn fold_trait_item_method(&mut self, i: TraitItemMethod) -> (r: Result<
        TraitItemMethod,
        TransformError,
    >)
        ensures
            old(self)@.stage != Stage::Unvisited ==> r == Ok::<TraitItemMethod, TransformError>(i)
                && final(self)@ == old(self)@,
            old(self)@.stage == Stage::Unvisited ==> final(self)@ == done_model(old(self)@),
            old(self)@.stage == Stage::Unvisited ==> match trait_item_method_model(
                old(self)@.args,
                i@,
            ) {
                Ok(m) => r is Ok && r->Ok_0@ == m,
                Err(e) => r == Err::<TraitItemMethod, TransformError>(e),
            },
    {
        if self.stage != Stage::Unvisited {
            return Ok(i);
        }
        let one_payload = !self.args.has_error();
        let unit = is_unit(&i.sig.output);
        let TraitItemMethod { front, sig, default } = i;
        let Signature { header, output, where_clause } = sig;
        let output = match self.fold_return_type(output) {
            Ok(output) => output,
            Err(e) => {
                return Err(e);
            },
        };
        let sig = Signature { header, output, where_clause };
        let default = match default {
            Some(block) => match self.fold_body(&block, one_payload, unit) {
                Ok(body) => Some(body),
                Err(e) => {
                    return Err(e);
                },
            },
            None => {
                self.stage = Stage::Done;
                None
            },
        };
        Ok(TraitItemMethod { front, sig, default })
    }

    /// A closure stays as it is.
    pub fn fold_expr_closure(&mut self, i: Expr) -> (r: Expr)
        ensures
            r == i,
            *final(self) == *old(self),
    {
        i
    }

    /// An async block stays as it is.
    pub fn fold_expr_async(&mut self, i: Expr) -> (r: Expr)
        ensures
            r == i,
            *final(self) == *old(self),
    {
        i
    }

    /// Rewrites the return type of the definition, if nothing has been
    /// rewritten yet. A return type that is refused ends the rewriting.
    pub fn fold_return_type(&mut self, i: ReturnType) -> (r: Result<ReturnType, TransformError>)
        ensures
            old(self)@.stage != Stage::Unvisited ==> r == Ok::<ReturnType, TransformError>(i)
                && final(self)@ == old(self)@,
            old(self)@.stage == Stage::Unvisited ==> final(self)@ == (ThrowsModel {
                args: used_model(old(self)@.args),
                stage: if r is Ok {
                    Stage::HeaderRewritten
                } else {
                    Stage::Done
                },
            }),
            old(self)@.stage == Stage::Unvisited ==> match ret_model(old(self)@.args, i@) {
                Ok(t) => r is Ok && r->Ok_0@ == t,
                Err(e) => r == Err::<ReturnType, TransformError>(e),
            },
    {
        if self.stage != Stage::Unvisited {
            return Ok(i);
        }
        let folded = self.args.ret(i);
        self.stage = match &folded {
            Ok(_) => Stage::HeaderRewritten,
            Err(_) => Stage::Done,
        };
        folded
    }
}

/// Rewrites the definition that the annotation is attached to, under the
/// arguments of the annotation.
pub fn throws(args: Vec<ArgToken>, input: Definition) -> (r: Result<Definition, TransformError>)
    ensures
        match resolve_model(tokens_view(args@), default_error_model()) {
            Ok(a) => match fold_model(a, input@) {
                Ok(d) => r is Ok && r->Ok_0@ == d,
                Err(e) => r == Err::<Definition, TransformError>(e),
            },
            Err(e) => r == Err::<Definition, TransformError>(e),
        },
{
    match Args::parse(args) {
        Ok(args) => Throws::new(args).fold(input),
        Err(e) => Err(e),
    }
}

} // verus!
