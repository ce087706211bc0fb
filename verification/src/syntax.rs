//! Function definitions, as far as the rewriting looks into them.
//!
//! A definition is a signature and a body. In a body, only the shapes that the
//! rewriting acts on are told apart: blocks, exits, raises, nested definitions,
//! and expressions made of other expressions. Everything else is source text.

use crate::types::{TypeModel, TypeRef};
use vstd::prelude::*;

verus! {

/// An expression.
#[derive(Debug, PartialEq, Eq)]
pub enum Expr {
    /// An expression that holds no other expression, as source text.
    Verbatim(String),
    /// The unit value `()`.
    Unit,
    /// An early exit, `return` or `return e`.
    Return(Option<Box<Expr>>),
    /// A raise, `throw!()` or `throw!(e)`.
    Throw(Option<Box<Expr>>),
    /// A closure: its parameters as source text, and its body.
    Closure { header: String, body: Box<Expr> },
    /// An async block: its keywords as source text, and its block.
    Async { header: String, block: Block },
    /// A block expression.
    Block(Block),
    /// Any other expression that holds expressions: its parts in source order.
    /// A part that is a keyword or an operator is a `Verbatim`.
    Composite(Vec<Expr>),
    /// The success outcome that holds the value of an expression.
    Success(Box<Expr>),
    /// The failure outcome that holds the value of an expression.
    Failure(Box<Expr>),
    /// The failure outcome that holds nothing.
    EmptyFailure,
}

/// A statement of a block.
#[derive(Debug, PartialEq, Eq)]
pub enum Stmt {
    /// A `let`: the pattern with its type as source text, and what it is bound to.
    Local { pattern: String, init: Option<Expr> },
    /// A definition inside the block.
    Item(Item),
    /// An expression that is not followed by a semicolon.
    Expr(Expr),
    /// An expression that is followed by a semicolon: its value is discarded.
    Semi(Expr),
}

/// A definition inside a block.
#[derive(Debug, PartialEq, Eq)]
pub enum Item {
    /// A nested function.
    Fn(ItemFn),
    /// Any other item, as source text.
    Verbatim(String),
}

/// A block: statements in order, and the expression it ends in, if any.
#[derive(Debug, PartialEq, Eq)]
pub struct Block {
    pub stmts: Vec<Stmt>,
    pub tail: Option<Box<Expr>>,
}

/// The declared return type of a signature.
#[derive(Debug, PartialEq, Eq)]
pub enum ReturnType {
    /// None is declared: the function returns the unit type.
    Default,
    /// `-> T`.
    Type(TypeRef),
}

/// A function signature. Only the return type is looked into.
#[derive(Debug, PartialEq, Eq)]
pub struct Signature {
    /// Everything before the return type, as source text.
    pub header: String,
    pub output: ReturnType,
    /// The `where` clause, as source text; empty if there is none.
    pub where_clause: String,
}

/// A free function.
#[derive(Debug, PartialEq, Eq)]
pub struct ItemFn {
    /// Attributes and visibility, as source text.
    pub front: String,
    pub sig: Signature,
    pub block: Block,
}

/// A method in an `impl` block.
#[derive(Debug, PartialEq, Eq)]
pub struct ImplItemMethod {
    /// Attributes, visibility and `default`, as source text.
    pub front: String,
    pub sig: Signature,
    pub block: Block,
}

/// A method in a trait, with or without a default body.
#[derive(Debug, PartialEq, Eq)]
pub struct TraitItemMethod {
    /// Attributes, as source text.
    pub front: String,
    pub sig: Signature,
    pub default: Option<Block>,
}

/// What the annotation is attached to.
#[derive(Debug, PartialEq, Eq)]
pub enum Definition {
    ItemFn(ItemFn),
    ImplItemMethod(ImplItemMethod),
    TraitItemMethod(TraitItemMethod),
    /// Anything that is not a function or a method, as source text.
    Verbatim(String),
}

/// The mathematical value of an [`Expr`].
pub ghost enum ExprModel {
    Verbatim(Seq<char>),
    Unit,
    Return(Option<Box<ExprModel>>),
    Throw(Option<Box<ExprModel>>),
    Closure { header: Seq<char>, body: Box<ExprModel> },
    Async { header: Seq<char>, block: BlockModel },
    Block(BlockModel),
    Composite(Seq<ExprModel>),
    Success(Box<ExprModel>),
    Failure(Box<ExprModel>),
    EmptyFailure,
}

/// The mathematical value of a [`Stmt`].
pub ghost enum StmtModel {
    Local { pattern: Seq<char>, init: Option<ExprModel> },
    Item(ItemModel),
    Expr(ExprModel),
    Semi(ExprModel),
}

/// The mathematical value of an [`Item`].
pub ghost enum ItemModel {
    Fn(ItemFnModel),
    Verbatim(Seq<char>),
}

/// The mathematical value of a [`Block`].
pub ghost struct BlockModel {
    pub stmts: Seq<StmtModel>,
    pub tail: Option<Box<ExprModel>>,
}

/// The mathematical value of a [`ReturnType`].
pub ghost enum ReturnTypeModel {
    Default,
    Type(TypeModel),
}

/// The mathematical value of a [`Signature`].
pub ghost struct SignatureModel {
    pub header: Seq<char>,
    pub output: ReturnTypeModel,
    pub where_clause: Seq<char>,
}

/// The mathematical value of an [`ItemFn`] and of an [`ImplItemMethod`].
pub ghost struct ItemFnModel {
    pub front: Seq<char>,
    pub sig: SignatureModel,
    pub block: BlockModel,
}

/// The mathematical value of a [`TraitItemMethod`].
pub ghost struct TraitItemMethodModel {
    pub front: Seq<char>,
    pub sig: SignatureModel,
    pub default: Option<BlockModel>,
}

/// The mathematical value of a [`Definition`].
pub ghost enum DefinitionModel {
    ItemFn(ItemFnModel),
    ImplItemMethod(ItemFnModel),
    TraitItemMethod(TraitItemMethodModel),
    Verbatim(Seq<char>),
}

/// The view of an optional boxed expression.
pub open spec fn boxed_view(e: Option<Box<Expr>>) -> Option<Box<ExprModel>> {
    match e {
        Some(b) => Some(Box::new((*b)@)),
        None => None,
    }
}

/// The view of a sequence of expressions, element by element.
pub open spec fn exprs_view(v: Seq<Expr>) -> Seq<ExprModel> {
    Seq::new(v.len(), |i: int| v[i]@)
}

/// The view of a sequence of statements, element by element.
pub open spec fn stmts_view(v: Seq<Stmt>) -> Seq<StmtModel> {
    Seq::new(v.len(), |i: int| v[i]@)
}

/// The views of the first `n` parts of a composite expression.
pub open spec fn exprs_view_upto(v: Vec<Expr>, n: nat) -> Seq<ExprModel>
    decreases v, n,
{
    if n == 0 || n > v.len() {
        Seq::empty()
    } else {
        exprs_view_upto(v, (n - 1) as nat).push(v[n - 1]@)
    }
}

/// The views of the first `n` statements of a block.
pub open spec fn stmts_view_upto(v: Vec<Stmt>, n: nat) -> Seq<StmtModel>
    decreases v, n,
{
    if n == 0 || n > v.len() {
        Seq::empty()
    } else {
        stmts_view_upto(v, (n - 1) as nat).push(v[n - 1]@)
    }
}

impl View for Expr {
    type V = ExprModel;

    open spec fn view(&self) -> ExprModel
        decreases self,
    {
        match self {
            Expr::Verbatim(s) => ExprModel::Verbatim(s@),
            Expr::Unit => ExprModel::Unit,
            Expr::Return(None) => ExprModel::Return(None),
            Expr::Return(Some(e)) => ExprModel::Return(Some(Box::new((**e)@))),
            Expr::Throw(None) => ExprModel::Throw(None),
            Expr::Throw(Some(e)) => ExprModel::Throw(Some(Box::new((**e)@))),
            Expr::Closure { header, body } => ExprModel::Closure {
                header: header@,
                body: Box::new((**body)@),
            },
            Expr::Async { header, block } => ExprModel::Async { header: header@, block: block@ },
            Expr::Block(b) => ExprModel::Block(b@),
            Expr::Composite(parts) => ExprModel::Composite(
                exprs_view_upto(*parts, parts.len() as nat),
            ),
            Expr::Success(e) => ExprModel::Success(Box::new((**e)@)),
            Expr::Failure(e) => ExprModel::Failure(Box::new((**e)@)),
            Expr::EmptyFailure => ExprModel::EmptyFailure,
        }
    }
}

impl View for Stmt {
    type V = StmtModel;

    open spec fn view(&self) -> StmtModel
        decreases self,
    {
        match self {
            Stmt::Local { pattern, init: None } => StmtModel::Local {
                pattern: pattern@,
                init: None,
            },
            Stmt::Local { pattern, init: Some(e) } => StmtModel::Local {
                pattern: pattern@,
                init: Some(e@),
            },
            Stmt::Item(i) => StmtModel::Item(i@),
            Stmt::Expr(e) => StmtModel::Expr(e@),
            Stmt::Semi(e) => StmtModel::Semi(e@),
        }
    }
}

impl View for Item {
    type V = ItemModel;

    open spec fn view(&self) -> ItemModel
        decreases self,
    {
        match self {
            Item::Fn(f) => ItemModel::Fn(f@),
            Item::Verbatim(s) => ItemModel::Verbatim(s@),
        }
    }
}

impl View for Block {
    type V = BlockModel;

    open spec fn view(&self) -> BlockModel
        decreases self,
    {
        BlockModel {
            stmts: stmts_view_upto(self.stmts, self.stmts.len() as nat),
            tail: match self.tail {
                Some(e) => Some(Box::new((*e)@)),
                None => None,
            },
        }
    }
}

impl View for ReturnType {
    type V = ReturnTypeModel;

    open spec fn view(&self) -> ReturnTypeModel {
        match self {
            ReturnType::Default => ReturnTypeModel::Default,
            ReturnType::Type(t) => ReturnTypeModel::Type(t@),
        }
    }
}

impl View for Signature {
    type V = SignatureModel;

    open spec fn view(&self) -> SignatureModel {
        SignatureModel {
            header: self.header@,
            output: self.output@,
            where_clause: self.where_clause@,
        }
    }
}

impl View for ItemFn {
    type V = ItemFnModel;

    open spec fn view(&self) -> ItemFnModel
        decreases self,
    {
        ItemFnModel { front: self.front@, sig: self.sig@, block: self.block@ }
    }
}

impl View for ImplItemMethod {
    type V = ItemFnModel;

    open spec fn view(&self) -> ItemFnModel {
        ItemFnModel { front: self.front@, sig: self.sig@, block: self.block@ }
    }
}

impl View for TraitItemMethod {
    type V = TraitItemMethodModel;

    open spec fn view(&self) -> TraitItemMethodModel {
        TraitItemMethodModel {
            front: self.front@,
            sig: self.sig@,
            default: match self.default {
                Some(b) => Some(b@),
                None => None,
            },
        }
    }
}

impl View for Definition {
    type V = DefinitionModel;

    open spec fn view(&self) -> DefinitionModel {
        match self {
            Definition::ItemFn(f) => DefinitionModel::ItemFn(f@),
            Definition::ImplItemMethod(m) => DefinitionModel::ImplItemMethod(m@),
            Definition::TraitItemMethod(m) => DefinitionModel::TraitItemMethod(m@),
            Definition::Verbatim(s) => DefinitionModel::Verbatim(s@),
        }
    }
}

proof fn lemma_exprs_view_upto(v: Vec<Expr>, n: nat)
    requires
        n <= v.len(),
    ensures
        exprs_view_upto(v, n).len() == n,
        forall|i: int| 0 <= i < n ==> exprs_view_upto(v, n)[i] == v[i]@,
    decreases n,
{
    if n > 0 {
        lemma_exprs_view_upto(v, (n - 1) as nat);
        assert(exprs_view_upto(v, n) == exprs_view_upto(v, (n - 1) as nat).push(v[n - 1]@));
    }
}

proof fn lemma_stmts_view_upto(v: Vec<Stmt>, n: nat)
    requires
        n <= v.len(),
    ensures
        stmts_view_upto(v, n).len() == n,
        forall|i: int| 0 <= i < n ==> stmts_view_upto(v, n)[i] == v[i]@,
    decreases n,
{
    if n > 0 {
        lemma_stmts_view_upto(v, (n - 1) as nat);
        assert(stmts_view_upto(v, n) == stmts_view_upto(v, (n - 1) as nat).push(v[n - 1]@));
    }
}

/// The view of an expression, one level down.
pub broadcast proof fn lemma_expr_view(e: Expr)
    ensures
        #![trigger e@]
        e matches Expr::Verbatim(s) ==> e@ == ExprModel::Verbatim(s@),
        e is Unit ==> e@ == ExprModel::Unit,
        e matches Expr::Return(v) ==> e@ == ExprModel::Return(boxed_view(v)),
        e matches Expr::Throw(v) ==> e@ == ExprModel::Throw(boxed_view(v)),
        e matches Expr::Closure { header, body } ==> e@ == (ExprModel::Closure {
            header: header@,
            body: Box::new((*body)@),
        }),
        e matches Expr::Async { header, block } ==> e@ == (ExprModel::Async {
            header: header@,
            block: block@,
        }),
        e matches Expr::Block(b) ==> e@ == ExprModel::Block(b@),
        e matches Expr::Composite(parts) ==> e@ == ExprModel::Composite(exprs_view(parts@)),
        e matches Expr::Success(v) ==> e@ == ExprModel::Success(Box::new((*v)@)),
        e matches Expr::Failure(v) ==> e@ == ExprModel::Failure(Box::new((*v)@)),
        e is EmptyFailure ==> e@ == ExprModel::EmptyFailure,
{
    match e {
        Expr::Composite(parts) => {
            lemma_exprs_view_upto(parts, parts.len() as nat);
            assert(e@->Composite_0 =~= exprs_view(parts@));
        },
        _ => {},
    }
}

/// The view of a statement, one level down.
pub broadcast proof fn lemma_stmt_view(s: Stmt)
    ensures
        #![trigger s@]
        s matches Stmt::Local { pattern, init } ==> s@ == (StmtModel::Local {
            pattern: pattern@,
            init: match init {
                Some(e) => Some(e@),
                None => None,
            },
        }),
        s matches Stmt::Item(i) ==> s@ == StmtModel::Item(i@),
        s matches Stmt::Expr(e) ==> s@ == StmtModel::Expr(e@),
        s matches Stmt::Semi(e) ==> s@ == StmtModel::Semi(e@),
{
}

/// The view of a block, one level down.
pub broadcast proof fn lemma_block_view(b: Block)
    ensures
        #![trigger b@]
        b@ == (BlockModel { stmts: stmts_view(b.stmts@), tail: boxed_view(b.tail) }),
{
    lemma_stmts_view_upto(b.stmts, b.stmts.len() as nat);
    assert(b@.stmts =~= stmts_view(b.stmts@));
}

/// The views of expressions, statements and blocks, each one level down.
pub broadcast group group_syntax_views {
    lemma_expr_view,
    lemma_stmt_view,
    lemma_block_view,
}

impl Clone for Expr {
    fn clone(&self) -> (res: Self)
        ensures
            res@ == self@,
        decreases self,
    {
        broadcast use group_syntax_views;

        match self {
            Expr::Verbatim(s) => Expr::Verbatim(s.clone()),
            Expr::Unit => Expr::Unit,
            Expr::Return(None) => Expr::Return(None),
            Expr::Return(Some(e)) => Expr::Return(Some(Box::new((**e).clone()))),
            Expr::Throw(None) => Expr::Throw(None),
            Expr::Throw(Some(e)) => Expr::Throw(Some(Box::new((**e).clone()))),
            Expr::Closure { header, body } => Expr::Closure {
                header: header.clone(),
                body: Box::new((**body).clone()),
            },
            Expr::Async { header, block } => Expr::Async {
                header: header.clone(),
                block: block.clone(),
            },
            Expr::Block(b) => Expr::Block(b.clone()),
            Expr::Composite(parts) => {
                let mut out: Vec<Expr> = Vec::new();
                let mut i: usize = 0;
                while i < parts.len()
                    invariant
                        i <= parts.len(),
                        out.len() == i,
                        forall|j: int| 0 <= j < i ==> out[j]@ == parts[j]@,
                        self is Composite,
                        self->Composite_0 == *parts,
                    decreases parts.len() - i,
                {
                    out.push(parts[i].clone());
                    i += 1;
                }
                assert(exprs_view(out@) =~= exprs_view(parts@));
                Expr::Composite(out)
            },
            Expr::Success(e) => Expr::Success(Box::new((**e).clone())),
            Expr::Failure(e) => Expr::Failure(Box::new((**e).clone())),
            Expr::EmptyFailure => Expr::EmptyFailure,
        }
    }
}

impl Clone for Stmt {
    fn clone(&self) -> (res: Self)
        ensures
            res@ == self@,
        decreases self,
    {
        broadcast use group_syntax_views;

        match self {
            Stmt::Local { pattern, init: None } => Stmt::Local {
                pattern: pattern.clone(),
                init: None,
            },
            Stmt::Local { pattern, init: Some(e) } => Stmt::Local {
                pattern: pattern.clone(),
                init: Some(e.clone()),
            },
            Stmt::Item(i) => Stmt::Item(i.clone()),
            Stmt::Expr(e) => Stmt::Expr(e.clone()),
            Stmt::Semi(e) => Stmt::Semi(e.clone()),
        }
    }
}

impl Clone for Item {
    fn clone(&self) -> (res: Self)
        ensures
            res@ == self@,
        decreases self,
    {
        match self {
            Item::Fn(f) => Item::Fn(f.clone()),
            Item::Verbatim(s) => Item::Verbatim(s.clone()),
        }
    }
}

impl Clone for Block {
    fn clone(&self) -> (res: Self)
        ensures
            res@ == self@,
        decreases self,
    {
        broadcast use group_syntax_views;

        let mut out: Vec<Stmt> = Vec::new();
        let mut i: usize = 0;
        while i < self.stmts.len()
            invariant
                i <= self.stmts.len(),
                out.len() == i,
                forall|j: int| 0 <= j < i ==> out[j]@ == self.stmts[j]@,
            decreases self.stmts.len() - i,
        {
            out.push(self.stmts[i].clone());
            i += 1;
        }
        let tail = match &self.tail {
            Some(e) => Some(Box::new((**e).clone())),
            None => None,
        };
        assert(stmts_view(out@) =~= stmts_view(self.stmts@));
        Block { stmts: out, tail }
    }
}

impl Clone for ReturnType {
    fn clone(&self) -> (res: Self)
        ensures
            res@ == self@,
    {
        match self {
            ReturnType::Default => ReturnType::Default,
            ReturnType::Type(t) => ReturnType::Type(t.clone()),
        }
    }
}

impl Clone for Signature {
    fn clone(&self) -> (res: Self)
        ensures
            res@ == self@,
    {
        Signature {
            header: self.header.clone(),
            output: self.output.clone(),
            where_clause: self.where_clause.clone(),
        }
    }
}

impl Clone for ItemFn {
    fn clone(&self) -> (res: Self)
        ensures
            res@ == self@,
        decreases self,
    {
        ItemFn { front: self.front.clone(), sig: self.sig.clone(), block: self.block.clone() }
    }
}

} // verus!
