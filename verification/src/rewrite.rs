//! What the rewriting makes of a body.
//!
//! Every early exit hands back a success outcome, every raise becomes an
//! early exit with a failure outcome, and the end of the body hands back a
//! success outcome. Definitions nested in the body (functions, closures,
//! async blocks) stay as they are.

use crate::syntax::{BlockModel, ExprModel, ItemModel, StmtModel};
use vstd::prelude::*;

verus! {

/// The success outcome that holds the value of `e`.
pub open spec fn success(e: ExprModel) -> ExprModel {
    ExprModel::Success(Box::new(e))
}

/// The failure outcome that holds the value of `e`.
pub open spec fn failure(e: ExprModel) -> ExprModel {
    ExprModel::Failure(Box::new(e))
}

/// The early exit that hands back the value of `e`.
pub open spec fn exit_with(e: ExprModel) -> ExprModel {
    ExprModel::Return(Some(Box::new(e)))
}

/// The rewritten expression: every early exit in it hands back a success
/// outcome, and every raise is an early exit with a failure outcome. Closures
/// and async blocks are not entered.
pub open spec fn rewrite_expr(e: ExprModel) -> ExprModel
    decreases e,
{
    match e {
        ExprModel::Return(None) => exit_with(success(ExprModel::Unit)),
        ExprModel::Return(Some(v)) => exit_with(success(rewrite_expr(*v))),
        ExprModel::Throw(None) => exit_with(ExprModel::EmptyFailure),
        ExprModel::Throw(Some(v)) => exit_with(failure(rewrite_expr(*v))),
        ExprModel::Block(b) => ExprModel::Block(rewrite_block(b)),
        ExprModel::Composite(parts) => ExprModel::Composite(rewrite_exprs(parts, parts.len())),
        ExprModel::Success(v) => success(rewrite_expr(*v)),
        ExprModel::Failure(v) => failure(rewrite_expr(*v)),
        ExprModel::Verbatim(_) => e,
        ExprModel::Unit => e,
        ExprModel::Closure { .. } => e,
        ExprModel::Async { .. } => e,
        ExprModel::EmptyFailure => e,
    }
}

/// The first `n` of `parts`, each rewritten.
pub open spec fn rewrite_exprs(parts: Seq<ExprModel>, n: nat) -> Seq<ExprModel>
    decreases parts, n,
{
    if n == 0 || n > parts.len() {
        Seq::empty()
    } else {
        rewrite_exprs(parts, (n - 1) as nat).push(rewrite_expr(parts[n - 1]))
    }
}

/// The rewritten statement. An item stays as it is.
pub open spec fn rewrite_stmt(s: StmtModel) -> StmtModel
    decreases s,
{
    match s {
        StmtModel::Local { pattern, init: Some(e) } => StmtModel::Local {
            pattern,
            init: Some(rewrite_expr(e)),
        },
        StmtModel::Local { pattern, init: None } => s,
        StmtModel::Item(_) => s,
        StmtModel::Expr(e) => StmtModel::Expr(rewrite_expr(e)),
        StmtModel::Semi(e) => StmtModel::Semi(rewrite_expr(e)),
    }
}

/// The first `n` of `stmts`, each rewritten.
pub open spec fn rewrite_stmts(stmts: Seq<StmtModel>, n: nat) -> Seq<StmtModel>
    decreases stmts, n,
{
    if n == 0 || n > stmts.len() {
        Seq::empty()
    } else {
        rewrite_stmts(stmts, (n - 1) as nat).push(rewrite_stmt(stmts[n - 1]))
    }
}

/// The rewritten block: its statements and its last expression, each rewritten.
pub open spec fn rewrite_block(b: BlockModel) -> BlockModel
    decreases b,
{
    BlockModel {
        stmts: rewrite_stmts(b.stmts, b.stmts.len()),
        tail: match b.tail {
            Some(t) => Some(Box::new(rewrite_expr(*t))),
            None => None,
        },
    }
}

/// Whether the expression holds a raise without a value, outside closures and
/// async blocks.
pub open spec fn raises_empty(e: ExprModel) -> bool
    decreases e,
{
    match e {
        ExprModel::Return(Some(v)) => raises_empty(*v),
        ExprModel::Throw(None) => true,
        ExprModel::Throw(Some(v)) => raises_empty(*v),
        ExprModel::Block(b) => block_raises_empty(b),
        ExprModel::Composite(parts) => exprs_raise_empty(parts, parts.len()),
        ExprModel::Success(v) => raises_empty(*v),
        ExprModel::Failure(v) => raises_empty(*v),
        _ => false,
    }
}

/// Whether one of the first `n` of `parts` holds a raise without a value.
pub open spec fn exprs_raise_empty(parts: Seq<ExprModel>, n: nat) -> bool
    decreases parts, n,
{
    if n == 0 || n > parts.len() {
        false
    } else {
        exprs_raise_empty(parts, (n - 1) as nat) || raises_empty(parts[n - 1])
    }
}

/// Whether the statement holds a raise without a value, outside items.
pub open spec fn stmt_raises_empty(s: StmtModel) -> bool
    decreases s,
{
    match s {
        StmtModel::Local { pattern, init: Some(e) } => raises_empty(e),
        StmtModel::Local { pattern, init: None } => false,
        StmtModel::Item(_) => false,
        StmtModel::Expr(e) => raises_empty(e),
        StmtModel::Semi(e) => raises_empty(e),
    }
}

/// Whether one of the first `n` of `stmts` holds a raise without a value.
pub open spec fn stmts_raise_empty(stmts: Seq<StmtModel>, n: nat) -> bool
    decreases stmts, n,
{
    if n == 0 || n > stmts.len() {
        false
    } else {
        stmts_raise_empty(stmts, (n - 1) as nat) || stmt_raises_empty(stmts[n - 1])
    }
}

/// Whether the block holds a raise without a value.
pub open spec fn block_raises_empty(b: BlockModel) -> bool
    decreases b,
{
    stmts_raise_empty(b.stmts, b.stmts.len()) || match b.tail {
        Some(t) => raises_empty(*t),
        None => false,
    }
}

/// The end of a rewritten body. Where the function declares the unit type,
/// the last expression is kept as a statement whose value is discarded, and
/// the body ends in the success outcome of the unit value. Where it declares
/// another type, the last expression is wrapped in a success outcome, and a
/// body without a last expression stays as it is.
pub open spec fn finish_body(b: BlockModel, unit: bool) -> BlockModel {
    match b.tail {
        Some(t) => if unit {
            BlockModel {
                stmts: b.stmts.push(StmtModel::Semi(*t)),
                tail: Some(Box::new(success(ExprModel::Unit))),
            }
        } else {
            BlockModel { stmts: b.stmts, tail: Some(Box::new(success(*t))) }
        },
        None => if unit {
            BlockModel { stmts: b.stmts, tail: Some(Box::new(success(ExprModel::Unit))) }
        } else {
            b
        },
    }
}

/// The rewritten body of a function.
pub open spec fn rewrite_body(b: BlockModel, unit: bool) -> BlockModel {
    finish_body(rewrite_block(b), unit)
}

/// The rewritten parts of a composite expression, part by part.
pub proof fn lemma_rewrite_exprs(parts: Seq<ExprModel>, n: nat)
    requires
        n <= parts.len(),
    ensures
        rewrite_exprs(parts, n).len() == n,
        forall|i: int| 0 <= i < n ==> rewrite_exprs(parts, n)[i] == rewrite_expr(parts[i]),
        exprs_raise_empty(parts, n) <==> exists|i: int| 0 <= i < n && raises_empty(parts[i]),
    decreases n,
{
    if n > 0 {
        lemma_rewrite_exprs(parts, (n - 1) as nat);
    }
}

/// The rewritten statements of a block, statement by statement.
pub proof fn lemma_rewrite_stmts(stmts: Seq<StmtModel>, n: nat)
    requires
        n <= stmts.len(),
    ensures
        rewrite_stmts(stmts, n).len() == n,
        forall|i: int| 0 <= i < n ==> rewrite_stmts(stmts, n)[i] == rewrite_stmt(stmts[i]),
        stmts_raise_empty(stmts, n) <==> exists|i: int| 0 <= i < n && stmt_raises_empty(stmts[i]),
    decreases n,
{
    if n > 0 {
        lemma_rewrite_stmts(stmts, (n - 1) as nat);
    }
}

/// Whether the expression holds no early exit and no raise, outside
/// closures and async blocks.
pub open spec fn plain(e: ExprModel) -> bool
    decreases e,
{
    match e {
        ExprModel::Return(_) => false,
        ExprModel::Throw(_) => false,
        ExprModel::Block(b) => plain_block(b),
        ExprModel::Composite(parts) => forall|i: int|
            0 <= i < parts.len() ==> plain(#[trigger] parts[i]),
        ExprModel::Success(v) => plain(*v),
        ExprModel::Failure(v) => plain(*v),
        _ => true,
    }
}

/// Whether the statement holds no early exit and no raise, outside items.
pub open spec fn plain_stmt(s: StmtModel) -> bool
    decreases s,
{
    match s {
        StmtModel::Local { pattern, init: Some(e) } => plain(e),
        StmtModel::Local { pattern, init: None } => true,
        StmtModel::Item(_) => true,
        StmtModel::Expr(e) => plain(e),
        StmtModel::Semi(e) => plain(e),
    }
}

/// Whether the block holds no early exit and no raise.
pub open spec fn plain_block(b: BlockModel) -> bool
    decreases b,
{
    &&& forall|i: int| 0 <= i < b.stmts.len() ==> plain_stmt(#[trigger] b.stmts[i])
    &&& match b.tail {
        Some(t) => plain(*t),
        None => true,
    }
}

/// Whether the expression holds a raise, outside closures and async blocks.
pub open spec fn raises(e: ExprModel) -> bool
    decreases e,
{
    match e {
        ExprModel::Return(Some(v)) => raises(*v),
        ExprModel::Throw(_) => true,
        ExprModel::Block(b) => block_raises(b),
        ExprModel::Composite(parts) => exists|i: int|
            0 <= i < parts.len() && raises(#[trigger] parts[i]),
        ExprModel::Success(v) => raises(*v),
        ExprModel::Failure(v) => raises(*v),
        _ => false,
    }
}

/// Whether the statement holds a raise, outside items.
pub open spec fn stmt_raises(s: StmtModel) -> bool
    decreases s,
{
    match s {
        StmtModel::Local { pattern, init: Some(e) } => raises(e),
        StmtModel::Local { pattern, init: None } => false,
        StmtModel::Item(_) => false,
        StmtModel::Expr(e) => raises(e),
        StmtModel::Semi(e) => raises(e),
    }
}

/// Whether the block holds a raise.
pub open spec fn block_raises(b: BlockModel) -> bool
    decreases b,
{
    ||| exists|i: int| 0 <= i < b.stmts.len() && stmt_raises(#[trigger] b.stmts[i])
    ||| match b.tail {
        Some(t) => raises(*t),
        None => false,
    }
}

/// Whether an expression is an outcome: a success, a failure, or the empty
/// failure.
pub open spec fn is_outcome(e: ExprModel) -> bool {
    e is Success || e is Failure || e is EmptyFailure
}

/// Whether every early exit in the expression hands back an outcome, and
/// nothing in it raises, outside closures and async blocks. With
/// `only_success`, each of these outcomes is a success.
pub open spec fn exits_wrapped(e: ExprModel, only_success: bool) -> bool
    decreases e,
{
    match e {
        ExprModel::Return(None) => false,
        ExprModel::Return(Some(v)) => (if only_success {
            *v is Success
        } else {
            is_outcome(*v)
        }) && exits_wrapped(*v, only_success),
        ExprModel::Throw(_) => false,
        ExprModel::Block(b) => block_exits_wrapped(b, only_success),
        ExprModel::Composite(parts) => forall|i: int|
            0 <= i < parts.len() ==> exits_wrapped(#[trigger] parts[i], only_success),
        ExprModel::Success(v) => exits_wrapped(*v, only_success),
        ExprModel::Failure(v) => exits_wrapped(*v, only_success),
        _ => true,
    }
}

/// Whether every early exit in the statement hands back an outcome.
pub open spec fn stmt_exits_wrapped(s: StmtModel, only_success: bool) -> bool
    decreases s,
{
    match s {
        StmtModel::Local { pattern, init: Some(e) } => exits_wrapped(e, only_success),
        StmtModel::Local { pattern, init: None } => true,
        StmtModel::Item(_) => true,
        StmtModel::Expr(e) => exits_wrapped(e, only_success),
        StmtModel::Semi(e) => exits_wrapped(e, only_success),
    }
}

/// Whether every early exit in the block hands back an outcome.
pub open spec fn block_exits_wrapped(b: BlockModel, only_success: bool) -> bool
    decreases b,
{
    &&& forall|i: int|
        0 <= i < b.stmts.len() ==> stmt_exits_wrapped(#[trigger] b.stmts[i], only_success)
    &&& match b.tail {
        Some(t) => exits_wrapped(*t, only_success),
        None => true,
    }
}

/// What holds no early exit and no raise is rewritten into itself.
pub proof fn lemma_rewrite_plain(e: ExprModel)
    requires
        plain(e),
    ensures
        rewrite_expr(e) == e,
        !raises_empty(e),
    decreases e,
{
    match e {
        ExprModel::Block(b) => {
            lemma_rewrite_plain_block(b);
        },
        ExprModel::Composite(parts) => {
            lemma_rewrite_exprs(parts, parts.len());
            assert forall|i: int| 0 <= i < parts.len() implies rewrite_expr(parts[i]) == parts[i]
                && !raises_empty(parts[i]) by {
                lemma_rewrite_plain(parts[i]);
            }
            assert(rewrite_exprs(parts, parts.len()) =~= parts);
        },
        ExprModel::Success(v) => {
            lemma_rewrite_plain(*v);
        },
        ExprModel::Failure(v) => {
            lemma_rewrite_plain(*v);
        },
        _ => {},
    }
}

/// A statement that holds no early exit and no raise is rewritten into itself.
pub proof fn lemma_rewrite_plain_stmt(s: StmtModel)
    requires
        plain_stmt(s),
    ensures
        rewrite_stmt(s) == s,
        !stmt_raises_empty(s),
    decreases s,
{
    match s {
        StmtModel::Local { pattern, init: Some(e) } => {
            lemma_rewrite_plain(e);
        },
        StmtModel::Expr(e) => {
            lemma_rewrite_plain(e);
        },
        StmtModel::Semi(e) => {
            lemma_rewrite_plain(e);
        },
        _ => {},
    }
}

/// A block that holds no early exit and no raise is rewritten into itself.
pub proof fn lemma_rewrite_plain_block(b: BlockModel)
    requires
        plain_block(b),
    ensures
        rewrite_block(b) == b,
        !block_raises_empty(b),
    decreases b,
{
    lemma_rewrite_stmts(b.stmts, b.stmts.len());
    assert forall|i: int| 0 <= i < b.stmts.len() implies rewrite_stmt(b.stmts[i]) == b.stmts[i]
        && !stmt_raises_empty(b.stmts[i]) by {
        lemma_rewrite_plain_stmt(b.stmts[i]);
    }
    assert(rewrite_stmts(b.stmts, b.stmts.len()) =~= b.stmts);
    match b.tail {
        Some(t) => {
            lemma_rewrite_plain(*t);
        },
        None => {},
    }
}

/// In a rewritten expression every early exit hands back an outcome, and
/// nothing raises any more. Where the expression held no raise, each of
/// these outcomes is a success.
pub proof fn lemma_exits_are_outcomes(e: ExprModel)
    ensures
        exits_wrapped(rewrite_expr(e), false),
        !raises(e) ==> exits_wrapped(rewrite_expr(e), true),
    decreases e,
{
    let unit_outcome = success(ExprModel::Unit);
    assert(exits_wrapped(ExprModel::Unit, true) && exits_wrapped(ExprModel::Unit, false));
    assert(exits_wrapped(unit_outcome, true) && exits_wrapped(unit_outcome, false));
    assert(exits_wrapped(ExprModel::EmptyFailure, false));
    match e {
        ExprModel::Return(Some(v)) => {
            lemma_exits_are_outcomes(*v);
            let inner = success(rewrite_expr(*v));
            assert(exits_wrapped(exit_with(inner), false) == exits_wrapped(inner, false));
            assert(exits_wrapped(exit_with(inner), true) == exits_wrapped(inner, true));
        },
        ExprModel::Throw(Some(v)) => {
            lemma_exits_are_outcomes(*v);
            let inner = failure(rewrite_expr(*v));
            assert(exits_wrapped(exit_with(inner), false) == exits_wrapped(inner, false));
        },
        ExprModel::Block(b) => {
            lemma_block_exits_are_outcomes(b);
        },
        ExprModel::Composite(parts) => {
            lemma_rewrite_exprs(parts, parts.len());
            let out = rewrite_exprs(parts, parts.len());
            assert forall|i: int| 0 <= i < out.len() implies exits_wrapped(
                #[trigger] out[i],
                false,
            ) by {
                lemma_exits_are_outcomes(parts[i]);
            }
            if !raises(e) {
                assert forall|i: int| 0 <= i < out.len() implies exits_wrapped(
                    #[trigger] out[i],
                    true,
                ) by {
                    lemma_exits_are_outcomes(parts[i]);
                }
            }
        },
        ExprModel::Success(v) => {
            lemma_exits_are_outcomes(*v);
        },
        ExprModel::Failure(v) => {
            lemma_exits_are_outcomes(*v);
        },
        _ => {},
    }
}

/// In a rewritten statement every early exit hands back an outcome.
pub proof fn lemma_stmt_exits_are_outcomes(s: StmtModel)
    ensures
        stmt_exits_wrapped(rewrite_stmt(s), false),
        !stmt_raises(s) ==> stmt_exits_wrapped(rewrite_stmt(s), true),
    decreases s,
{
    match s {
        StmtModel::Local { pattern, init: Some(e) } => {
            lemma_exits_are_outcomes(e);
        },
        StmtModel::Expr(e) => {
            lemma_exits_are_outcomes(e);
        },
        StmtModel::Semi(e) => {
            lemma_exits_are_outcomes(e);
        },
        _ => {},
    }
}

/// In a rewritten block every early exit hands back an outcome.
pub proof fn lemma_block_exits_are_outcomes(b: BlockModel)
    ensures
        block_exits_wrapped(rewrite_block(b), false),
        !block_raises(b) ==> block_exits_wrapped(rewrite_block(b), true),
    decreases b,
{
    lemma_rewrite_stmts(b.stmts, b.stmts.len());
    let out = rewrite_block(b);
    assert forall|i: int| 0 <= i < out.stmts.len() implies stmt_exits_wrapped(
        #[trigger] out.stmts[i],
        false,
    ) by {
        lemma_stmt_exits_are_outcomes(b.stmts[i]);
    }
    if !block_raises(b) {
        assert forall|i: int| 0 <= i < out.stmts.len() implies stmt_exits_wrapped(
            #[trigger] out.stmts[i],
            true,
        ) by {
            lemma_stmt_exits_are_outcomes(b.stmts[i]);
        }
    }
    match b.tail {
        Some(t) => {
            lemma_exits_are_outcomes(*t);
        },
        None => {},
    }
}

/// A function that declares the unit type and raises nowhere hands back,
/// once rewritten, a success outcome wherever it ends: its body ends in the
/// success outcome of the unit value, an early exit without a value hands
/// back that same outcome, and every other early exit hands back the success
/// outcome of its value.
pub proof fn lemma_unit_body_ends_in_success(b: BlockModel)
    requires
        !block_raises(b),
    ensures
        rewrite_body(b, true).tail == Some(Box::new(success(ExprModel::Unit))),
        block_exits_wrapped(rewrite_body(b, true), true),
        rewrite_expr(ExprModel::Return(None)) == exit_with(success(ExprModel::Unit)),
{
    lemma_block_exits_are_outcomes(b);
    assert(exits_wrapped(ExprModel::Unit, true));
}

/// A raise with a value becomes an early exit that hands back the failure
/// outcome of that value: of `v` itself where `v` holds no exit and no raise.
pub proof fn lemma_raise_exits_with_failure(v: ExprModel)
    ensures
        rewrite_expr(ExprModel::Throw(Some(Box::new(v)))) == exit_with(failure(rewrite_expr(v))),
        plain(v) ==> rewrite_expr(ExprModel::Throw(Some(Box::new(v)))) == exit_with(failure(v)),
{
    if plain(v) {
        lemma_rewrite_plain(v);
    }
}

/// Definitions nested in a body stay as they are, whatever they hold: a
/// closure, an async block, and an item, which a nested function is. A raise
/// without a value inside them is not counted against the definition around.
pub proof fn lemma_nested_definitions_stay(
    header: Seq<char>,
    body: ExprModel,
    block: BlockModel,
    item: ItemModel,
)
    ensures
        rewrite_expr(ExprModel::Closure { header, body: Box::new(body) }) == (ExprModel::Closure {
            header,
            body: Box::new(body),
        }),
        rewrite_expr(ExprModel::Async { header, block }) == (ExprModel::Async { header, block }),
        rewrite_stmt(StmtModel::Item(item)) == StmtModel::Item(item),
        !raises_empty(ExprModel::Closure { header, body: Box::new(body) }),
        !raises_empty(ExprModel::Async { header, block }),
        !stmt_raises_empty(StmtModel::Item(item)),
{
}

/// Where a function declares another type than the unit type, the
/// expression that its body ends in and an early exit with that same
/// expression hand back the same outcome: the success outcome of the
/// rewritten expression.
pub proof fn lemma_tail_and_exit_wrap_alike(stmts: Seq<StmtModel>, e: ExprModel)
    ensures
        rewrite_body(BlockModel { stmts, tail: Some(Box::new(e)) }, false).tail == Some(
            Box::new(success(rewrite_expr(e))),
        ),
        rewrite_expr(ExprModel::Return(Some(Box::new(e)))) == exit_with(success(rewrite_expr(e))),
        plain(e) ==> rewrite_expr(e) == e,
{
    if plain(e) {
        lemma_rewrite_plain(e);
    }
}

} // verus!
