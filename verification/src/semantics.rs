//! What a body does when it runs, and that the rewriting keeps it.
//!
//! The rewriting looks into exits, raises and blocks; what source text
//! evaluates to, and which parts of a composite expression run in which
//! order, is the host language's business. A run is therefore taken under a
//! schedule: the decisions of the host, one after the other. Whatever the
//! schedule, a rewritten body hands back the outcome that the body was meant
//! to have: a success where it ended or exited, a failure where it raised.

use crate::syntax::{BlockModel, ExprModel, ItemModel, StmtModel};
use crate::rewrite::{
    finish_body, lemma_rewrite_exprs, lemma_rewrite_stmts, rewrite_block, rewrite_body,
    rewrite_expr, rewrite_exprs, rewrite_stmt, rewrite_stmts,
};
use vstd::prelude::*;

verus! {

/// A value at run time.
pub ghost enum Value {
    /// The unit value.
    Unit,
    /// A value of the host language, by a number.
    Host(int),
    /// The success outcome that holds a value.
    Success(Box<Value>),
    /// The failure outcome that holds a value.
    Failure(Box<Value>),
    /// The failure outcome that holds nothing.
    EmptyFailure,
}

/// One decision of the host language.
pub ghost enum Choice {
    /// Of a composite expression, the part with this number runs next.
    Run(nat),
    /// The expression at hand is done, with this value.
    Done(Value),
}

/// How a piece of a body ends.
pub ghost enum Flow {
    /// It ran to its end, with a value.
    Normal(Value),
    /// It left the function through an early exit, with a value.
    Exit(Value),
    /// It raised, with a value or without.
    Raise(Option<Value>),
    /// The schedule does not fit the body, or is used up.
    Stuck,
}

/// How a piece of a body ends, and how much of the schedule it has used.
pub ghost struct Run {
    pub flow: Flow,
    pub at: nat,
}

/// What is left of a schedule.
pub open spec fn remaining(s: Seq<Choice>, at: nat) -> nat {
    if at <= s.len() {
        (s.len() - at) as nat
    } else {
        0
    }
}

/// The later of two places in a schedule.
pub open spec fn later(a: nat, b: nat) -> nat {
    if a >= b {
        a
    } else {
        b
    }
}

/// What an expression makes of the value of the expression inside it.
pub ghost enum Wrap {
    /// An early exit with the value.
    Exit,
    /// A raise of the value.
    Raise,
    /// The success outcome that holds the value.
    Success,
    /// The failure outcome that holds the value.
    Failure,
    /// The unit value: the value is dropped.
    Drop,
}

/// A run that ended with a value goes on with what is made of the value; a
/// run that did not stays as it is.
pub open spec fn and_then(r: Run, wrap: Wrap) -> Run {
    match r.flow {
        Flow::Normal(v) => Run {
            flow: match wrap {
                Wrap::Exit => Flow::Exit(v),
                Wrap::Raise => Flow::Raise(Some(v)),
                Wrap::Success => Flow::Normal(Value::Success(Box::new(v))),
                Wrap::Failure => Flow::Normal(Value::Failure(Box::new(v))),
                Wrap::Drop => Flow::Normal(Value::Unit),
            },
            at: r.at,
        },
        _ => r,
    }
}

/// The run of what the host evaluates as a whole: source text, a closure, an
/// async block. The host decides its value.
pub open spec fn run_leaf(s: Seq<Choice>, at: nat) -> Run {
    if at < s.len() && s[at as int] is Done {
        Run { flow: Flow::Normal(s[at as int]->Done_0), at: at + 1 }
    } else {
        Run { flow: Flow::Stuck, at }
    }
}

/// The run of an expression under a schedule, from a place in it.
pub open spec fn run_expr(e: ExprModel, s: Seq<Choice>, at: nat) -> Run
    decreases e, 0nat, 0nat,
{
    match e {
        ExprModel::Verbatim(_) => run_leaf(s, at),
        ExprModel::Closure { .. } => run_leaf(s, at),
        ExprModel::Async { .. } => run_leaf(s, at),
        ExprModel::Unit => Run { flow: Flow::Normal(Value::Unit), at },
        ExprModel::EmptyFailure => Run { flow: Flow::Normal(Value::EmptyFailure), at },
        ExprModel::Return(None) => Run { flow: Flow::Exit(Value::Unit), at },
        ExprModel::Return(Some(v)) => and_then(run_expr(*v, s, at), Wrap::Exit),
        ExprModel::Throw(None) => Run { flow: Flow::Raise(None), at },
        ExprModel::Throw(Some(v)) => and_then(run_expr(*v, s, at), Wrap::Raise),
        ExprModel::Success(v) => and_then(run_expr(*v, s, at), Wrap::Success),
        ExprModel::Failure(v) => and_then(run_expr(*v, s, at), Wrap::Failure),
        ExprModel::Block(b) => run_block(b, s, at),
        ExprModel::Composite(parts) => run_parts(parts, s, at),
    }
}

/// The run of a composite expression: the host picks a part to run, again
/// and again, until it says that the expression is done. A part that exits
/// or raises ends the run.
pub open spec fn run_parts(parts: Seq<ExprModel>, s: Seq<Choice>, at: nat) -> Run
    decreases parts, 0nat, remaining(s, at),
{
    if at >= s.len() {
        Run { flow: Flow::Stuck, at }
    } else {
        match s[at as int] {
            Choice::Done(v) => Run { flow: Flow::Normal(v), at: at + 1 },
            Choice::Run(i) => if i >= parts.len() {
                Run { flow: Flow::Stuck, at }
            } else {
                let r = run_expr(parts[i as int], s, at + 1);
                if r.flow is Normal {
                    run_parts(parts, s, later(r.at, at + 1))
                } else {
                    r
                }
            },
        }
    }
}

/// The run of a statement. Its value, if it has one, is dropped.
pub open spec fn run_stmt(st: StmtModel, s: Seq<Choice>, at: nat) -> Run
    decreases st, 0nat, 0nat,
{
    match st {
        StmtModel::Local { pattern, init: Some(e) } => and_then(run_expr(e, s, at), Wrap::Drop),
        StmtModel::Local { pattern, init: None } => Run { flow: Flow::Normal(Value::Unit), at },
        StmtModel::Item(_) => Run { flow: Flow::Normal(Value::Unit), at },
        StmtModel::Expr(e) => and_then(run_expr(e, s, at), Wrap::Drop),
        StmtModel::Semi(e) => and_then(run_expr(e, s, at), Wrap::Drop),
    }
}

/// The run of the statements from the `k`th on, in order.
pub open spec fn run_stmts(stmts: Seq<StmtModel>, k: nat, s: Seq<Choice>, at: nat) -> Run
    decreases stmts, stmts.len() - k, 0nat,
{
    if k >= stmts.len() {
        Run { flow: Flow::Normal(Value::Unit), at }
    } else {
        let r = run_stmt(stmts[k as int], s, at);
        if r.flow is Normal {
            run_stmts(stmts, k + 1, s, r.at)
        } else {
            r
        }
    }
}

/// The run of a block: its statements, then the expression it ends in. Its
/// value is that of the expression, or the unit value.
pub open spec fn run_block(b: BlockModel, s: Seq<Choice>, at: nat) -> Run
    decreases b, 0nat, 0nat,
{
    let r = run_stmts(b.stmts, 0, s, at);
    if r.flow is Normal {
        match b.tail {
            Some(t) => run_expr(*t, s, r.at),
            None => r,
        }
    } else {
        r
    }
}

/// What the caller of a function is meant to get, where the body of the
/// function, as it is written, ended with `flow`: the success outcome of the
/// value where the body ended or exited, and the failure outcome of what it
/// raised. A function that declares the unit type ends with the unit value.
pub open spec fn meant(flow: Flow, unit: bool) -> Option<Value> {
    match flow {
        Flow::Normal(v) => Some(
            Value::Success(
                Box::new(
                    if unit {
                        Value::Unit
                    } else {
                        v
                    },
                ),
            ),
        ),
        Flow::Exit(v) => Some(Value::Success(Box::new(v))),
        Flow::Raise(Some(v)) => Some(Value::Failure(Box::new(v))),
        Flow::Raise(None) => Some(Value::EmptyFailure),
        Flow::Stuck => None,
    }
}

/// What the caller of a function gets, where the body ended with `flow`:
/// the value that the body ended or exited with.
pub open spec fn handed_back(flow: Flow) -> Option<Value> {
    match flow {
        Flow::Normal(v) => Some(v),
        Flow::Exit(v) => Some(v),
        _ => None,
    }
}

/// How a rewritten piece ends, where the piece ended with `flow`: an exit
/// hands back a success outcome, and a raise is an exit with a failure
/// outcome.
pub open spec fn rewritten_flow(flow: Flow) -> Flow {
    match flow {
        Flow::Normal(v) => Flow::Normal(v),
        Flow::Exit(v) => Flow::Exit(Value::Success(Box::new(v))),
        Flow::Raise(Some(v)) => Flow::Exit(Value::Failure(Box::new(v))),
        Flow::Raise(None) => Flow::Exit(Value::EmptyFailure),
        Flow::Stuck => Flow::Stuck,
    }
}

/// The run of a rewritten piece, where the piece ran as `r`.
pub open spec fn rewritten_run(r: Run) -> Run {
    Run { flow: rewritten_flow(r.flow), at: r.at }
}

/// A rewritten expression runs as the expression does, with every exit and
/// raise turned into an exit with an outcome.
pub proof fn lemma_run_rewritten_expr(e: ExprModel, s: Seq<Choice>, at: nat)
    ensures
        run_expr(rewrite_expr(e), s, at) == rewritten_run(run_expr(e, s, at)),
    decreases e, 0nat, 0nat,
{
    match e {
        ExprModel::Return(None) => {
            let unit_outcome = ExprModel::Success(Box::new(ExprModel::Unit));
            assert(run_expr(unit_outcome, s, at) == and_then(
                run_expr(ExprModel::Unit, s, at),
                Wrap::Success,
            ));
        },
        ExprModel::Return(Some(v)) => {
            lemma_run_rewritten_expr(*v, s, at);
        },
        ExprModel::Throw(None) => {
            assert(run_expr(rewrite_expr(e), s, at) == and_then(
                run_expr(ExprModel::EmptyFailure, s, at),
                Wrap::Exit,
            ));
        },
        ExprModel::Throw(Some(v)) => {
            lemma_run_rewritten_expr(*v, s, at);
            let inner = ExprModel::Failure(Box::new(rewrite_expr(*v)));
            assert(run_expr(inner, s, at) == and_then(
                run_expr(rewrite_expr(*v), s, at),
                Wrap::Failure,
            ));
        },
        ExprModel::Success(v) => {
            lemma_run_rewritten_expr(*v, s, at);
        },
        ExprModel::Failure(v) => {
            lemma_run_rewritten_expr(*v, s, at);
        },
        ExprModel::Block(b) => {
            lemma_run_rewritten_block(b, s, at);
        },
        ExprModel::Composite(parts) => {
            lemma_run_rewritten_parts(parts, s, at);
        },
        _ => {},
    }
}

/// A rewritten composite expression runs as the expression does.
pub proof fn lemma_run_rewritten_parts(parts: Seq<ExprModel>, s: Seq<Choice>, at: nat)
    ensures
        run_parts(rewrite_exprs(parts, parts.len()), s, at) == rewritten_run(
            run_parts(parts, s, at),
        ),
    decreases parts, 0nat, remaining(s, at),
{
    lemma_rewrite_exprs(parts, parts.len());
    if at < s.len() {
        match s[at as int] {
            Choice::Done(v) => {},
            Choice::Run(i) => {
                if i < parts.len() {
                    lemma_run_rewritten_expr(parts[i as int], s, at + 1);
                    let r = run_expr(parts[i as int], s, at + 1);
                    if r.flow is Normal {
                        lemma_run_rewritten_parts(parts, s, later(r.at, at + 1));
                    }
                }
            },
        }
    }
}

/// A rewritten statement runs as the statement does.
pub proof fn lemma_run_rewritten_stmt(st: StmtModel, s: Seq<Choice>, at: nat)
    ensures
        run_stmt(rewrite_stmt(st), s, at) == rewritten_run(run_stmt(st, s, at)),
    decreases st, 0nat, 0nat,
{
    match st {
        StmtModel::Local { pattern, init: Some(e) } => {
            lemma_run_rewritten_expr(e, s, at);
        },
        StmtModel::Expr(e) => {
            lemma_run_rewritten_expr(e, s, at);
        },
        StmtModel::Semi(e) => {
            lemma_run_rewritten_expr(e, s, at);
        },
        _ => {},
    }
}

/// Rewritten statements run as the statements do.
pub proof fn lemma_run_rewritten_stmts(stmts: Seq<StmtModel>, k: nat, s: Seq<Choice>, at: nat)
    ensures
        run_stmts(rewrite_stmts(stmts, stmts.len()), k, s, at) == rewritten_run(
            run_stmts(stmts, k, s, at),
        ),
    decreases stmts, stmts.len() - k, 0nat,
{
    lemma_rewrite_stmts(stmts, stmts.len());
    if k < stmts.len() {
        lemma_run_rewritten_stmt(stmts[k as int], s, at);
        let r = run_stmt(stmts[k as int], s, at);
        if r.flow is Normal {
            lemma_run_rewritten_stmts(stmts, k + 1, s, r.at);
        }
    }
}

/// A rewritten block runs as the block does.
pub proof fn lemma_run_rewritten_block(b: BlockModel, s: Seq<Choice>, at: nat)
    ensures
        run_block(rewrite_block(b), s, at) == rewritten_run(run_block(b, s, at)),
    decreases b, 0nat, 0nat,
{
    lemma_run_rewritten_stmts(b.stmts, 0, s, at);
    let r = run_stmts(b.stmts, 0, s, at);
    if r.flow is Normal {
        match b.tail {
            Some(t) => {
                lemma_run_rewritten_expr(*t, s, r.at);
            },
            None => {},
        }
    }
}

/// Statements with one more at their end run as the statements, and then
/// the one more.
proof fn lemma_run_stmts_push(
    stmts: Seq<StmtModel>,
    last: StmtModel,
    k: nat,
    s: Seq<Choice>,
    at: nat,
)
    requires
        k <= stmts.len(),
    ensures
        run_stmts(stmts.push(last), k, s, at) == (if run_stmts(stmts, k, s, at).flow is Normal {
            run_stmt(last, s, run_stmts(stmts, k, s, at).at)
        } else {
            run_stmts(stmts, k, s, at)
        }),
    decreases stmts.len() - k,
{
    if k < stmts.len() {
        let r = run_stmt(stmts[k as int], s, at);
        if r.flow is Normal {
            lemma_run_stmts_push(stmts, last, k + 1, s, r.at);
        }
    } else {
        let r = run_stmt(last, s, at);
        assert(run_stmts(stmts.push(last), k + 1, s, r.at) == Run {
            flow: Flow::Normal(Value::Unit),
            at: r.at,
        });
    }
}

/// The rewriting keeps what a function is meant to do. Under every
/// schedule, the caller of the rewritten function gets the outcome that was
/// meant: the success outcome of the value where the body, as it was written,
/// ended or exited, and the failure outcome of what it raised.
///
/// A body that runs to its end without a last expression, in a function that
/// declares another type than the unit type, is left out: it has no value to
/// hand back, and nothing is put at its end.
pub proof fn theorem_rewriting_keeps_meaning(b: BlockModel, unit: bool, s: Seq<Choice>)
    requires
        unit || b.tail is Some || !(run_block(b, s, 0).flow is Normal),
    ensures
        handed_back(run_block(rewrite_body(b, unit), s, 0).flow) == meant(
            run_block(b, s, 0).flow,
            unit,
        ),
        run_block(rewrite_body(b, unit), s, 0).at == run_block(b, s, 0).at,
{
    lemma_run_rewritten_block(b, s, 0);
    let inner = rewrite_block(b);
    let out = finish_body(inner, unit);
    let r = run_stmts(inner.stmts, 0, s, 0);
    let unit_outcome = ExprModel::Success(Box::new(ExprModel::Unit));
    assert forall|at: nat| #[trigger] run_expr(unit_outcome, s, at) == (Run {
        flow: Flow::Normal(Value::Success(Box::new(Value::Unit))),
        at,
    }) by {
        assert(run_expr(unit_outcome, s, at) == and_then(
            run_expr(ExprModel::Unit, s, at),
            Wrap::Success,
        ));
    }
    if unit && r.flow is Normal {
        match inner.tail {
            Some(t) => {
                lemma_run_stmts_push(inner.stmts, StmtModel::Semi(*t), 0, s, 0);
                let last = run_expr(*t, s, r.at);
                if last.flow is Normal {
                    assert(run_block(out, s, 0) == run_expr(unit_outcome, s, last.at));
                }
            },
            None => {
                assert(run_block(out, s, 0) == run_expr(unit_outcome, s, r.at));
            },
        }
    } else if unit && inner.tail is Some {
        lemma_run_stmts_push(inner.stmts, StmtModel::Semi(*inner.tail->Some_0), 0, s, 0);
    }
}

/// A function that declares the unit type hands back the success outcome of
/// the unit value, once rewritten, on every run on which the body as it was
/// written raises nothing: on which it ends, or exits with the unit value.
pub proof fn theorem_unit_function_succeeds(b: BlockModel, s: Seq<Choice>)
    requires
        run_block(b, s, 0).flow is Normal || run_block(b, s, 0).flow == Flow::Exit(Value::Unit),
    ensures
        handed_back(run_block(rewrite_body(b, true), s, 0).flow) == Some(
            Value::Success(Box::new(Value::Unit)),
        ),
{
    theorem_rewriting_keeps_meaning(b, true, s);
}

/// On a run on which the body as it was written raises a value, the
/// rewritten function hands back the failure outcome of that value.
pub proof fn theorem_raise_hands_back_failure(b: BlockModel, unit: bool, s: Seq<Choice>, v: Value)
    requires
        run_block(b, s, 0).flow == Flow::Raise(Some(v)),
    ensures
        handed_back(run_block(rewrite_body(b, unit), s, 0).flow) == Some(
            Value::Failure(Box::new(v)),
        ),
        run_block(rewrite_body(b, unit), s, 0).flow is Exit,
{
    theorem_rewriting_keeps_meaning(b, unit, s);
    lemma_run_rewritten_block(b, s, 0);
}

/// In a function that declares another type than the unit type, a body that
/// ends in an expression and the same body with an early exit with that
/// expression in its place hand back the same, once rewritten: the success
/// outcome of the value of the expression, where the run gets that far.
pub proof fn theorem_tail_and_exit_agree(stmts: Seq<StmtModel>, e: ExprModel, s: Seq<Choice>)
    ensures
        ({
            let by_tail = BlockModel { stmts, tail: Some(Box::new(e)) };
            let by_exit = BlockModel {
                stmts: stmts.push(StmtModel::Semi(ExprModel::Return(Some(Box::new(e))))),
                tail: None,
            };
            &&& handed_back(run_block(rewrite_body(by_tail, false), s, 0).flow) == handed_back(
                run_block(rewrite_body(by_exit, false), s, 0).flow,
            )
            &&& run_block(by_tail, s, 0).flow matches Flow::Normal(v) ==> handed_back(
                run_block(rewrite_body(by_tail, false), s, 0).flow,
            ) == Some(Value::Success(Box::new(v)))
        }),
{
    let exit = StmtModel::Semi(ExprModel::Return(Some(Box::new(e))));
    lemma_run_stmts_push(stmts, exit, 0, s, 0);
    theorem_rewriting_keeps_meaning(BlockModel { stmts, tail: Some(Box::new(e)) }, false, s);
    theorem_rewriting_keeps_meaning(BlockModel { stmts: stmts.push(exit), tail: None }, false, s);
}

/// Definitions nested in a body run as they did before the rewriting: the
/// host makes of a closure and of an async block what it made of them, and an
/// item does nothing when the body runs.
pub proof fn theorem_nested_definitions_run_unchanged(
    header: Seq<char>,
    body: ExprModel,
    block: BlockModel,
    item: ItemModel,
    s: Seq<Choice>,
    at: nat,
)
    ensures
        run_expr(rewrite_expr(ExprModel::Closure { header, body: Box::new(body) }), s, at)
            == run_expr(ExprModel::Closure { header, body: Box::new(body) }, s, at),
        run_expr(rewrite_expr(ExprModel::Async { header, block }), s, at) == run_expr(
            ExprModel::Async { header, block },
            s,
            at,
        ),
        run_stmt(rewrite_stmt(StmtModel::Item(item)), s, at) == run_stmt(
            StmtModel::Item(item),
            s,
            at,
        ),
{
}

} // verus!
