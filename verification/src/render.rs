//! Definitions as source text.
//!
//! What the rewriting left as text is written as it is, and the parts of
//! what it looked into are written with blanks between them. An outcome is
//! written as the call that makes it.

use crate::syntax::{
    exprs_view, lemma_block_view, lemma_expr_view, lemma_stmt_view, stmts_view, Block, BlockModel,
    Definition, DefinitionModel, Expr, ExprModel, Item, ItemFn, ItemFnModel, ItemModel,
    ReturnType, ReturnTypeModel, Signature, SignatureModel, Stmt, StmtModel,
};
use crate::types::{
    arguments_view, lemma_arguments_view, lemma_path_view, segments_view, ArgumentModel,
    ArgumentsModel, GenericArgument, PathArguments, PathModel, PathSegment, SegmentModel,
    TypeModel, TypePath, TypeRef,
};
use vstd::prelude::*;

verus! {

/// A type as source text.
pub open spec fn type_text(t: TypeModel) -> Seq<char>
    decreases t, 0nat,
{
    match t {
        TypeModel::Path(p) => path_text(p),
        TypeModel::Unit => "()"@,
        TypeModel::Infer => "_"@,
        TypeModel::Verbatim(text) => text,
    }
}

/// A path as source text: its segments with `::` between them, after the
/// qualified self type or the leading `::`, if it has one.
pub open spec fn path_text(p: PathModel) -> Seq<char>
    decreases p, 0nat,
{
    match p.qself {
        Some(q) => q + "::"@ + segments_text(p.segments, p.segments.len()),
        None => if p.leading_colon {
            "::"@ + segments_text(p.segments, p.segments.len())
        } else {
            segments_text(p.segments, p.segments.len())
        },
    }
}

/// The first `n` segments as source text, with `::` between them.
pub open spec fn segments_text(segments: Seq<SegmentModel>, n: nat) -> Seq<char>
    decreases segments, n,
{
    if n == 0 || n > segments.len() {
        Seq::empty()
    } else if n == 1 {
        segment_text(segments[0])
    } else {
        segments_text(segments, (n - 1) as nat) + "::"@ + segment_text(segments[n - 1])
    }
}

/// A segment as source text: its name, and its arguments.
pub open spec fn segment_text(s: SegmentModel) -> Seq<char>
    decreases s, 0nat,
{
    match s.arguments {
        ArgumentsModel::Empty => s.ident,
        ArgumentsModel::AngleBracketed(args) => s.ident + "<"@ + arguments_text(args, args.len())
            + ">"@,
        ArgumentsModel::Parenthesized(text) => s.ident + text,
    }
}

/// The first `n` arguments as source text, with `, ` between them.
pub open spec fn arguments_text(args: Seq<ArgumentModel>, n: nat) -> Seq<char>
    decreases args, n,
{
    if n == 0 || n > args.len() {
        Seq::empty()
    } else if n == 1 {
        argument_text(args[0])
    } else {
        arguments_text(args, (n - 1) as nat) + ", "@ + argument_text(args[n - 1])
    }
}

/// An argument as source text.
pub open spec fn argument_text(a: ArgumentModel) -> Seq<char>
    decreases a, 0nat,
{
    match a {
        ArgumentModel::Type(t) => type_text(t),
        ArgumentModel::Verbatim(text) => text,
    }
}

/// An expression as source text.
pub open spec fn expr_text(e: ExprModel) -> Seq<char>
    decreases e, 0nat,
{
    match e {
        ExprModel::Verbatim(text) => text,
        ExprModel::Unit => "()"@,
        ExprModel::Return(None) => "return"@,
        ExprModel::Return(Some(v)) => "return "@ + expr_text(*v),
        ExprModel::Throw(None) => "throw!()"@,
        ExprModel::Throw(Some(v)) => "throw!("@ + expr_text(*v) + ")"@,
        ExprModel::Closure { header, body } => header + " "@ + expr_text(*body),
        ExprModel::Async { header, block } => header + " "@ + block_text(block),
        ExprModel::Block(b) => block_text(b),
        ExprModel::Composite(parts) => parts_text(parts, parts.len()),
        ExprModel::Success(v) => "<_ as ::fehler::__internal::_Succeed>::from_ok("@ + expr_text(*v)
            + ")"@,
        ExprModel::Failure(v) =>
            "<_ as ::fehler::__internal::_Throw>::from_error(::core::convert::From::from("@
            + expr_text(*v) + "))"@,
        ExprModel::EmptyFailure => "<_ as ::core::default::Default>::default()"@,
    }
}

/// The first `n` parts of a composite expression as source text, with a
/// blank between them.
pub open spec fn parts_text(parts: Seq<ExprModel>, n: nat) -> Seq<char>
    decreases parts, n,
{
    if n == 0 || n > parts.len() {
        Seq::empty()
    } else if n == 1 {
        expr_text(parts[0])
    } else {
        parts_text(parts, (n - 1) as nat) + " "@ + expr_text(parts[n - 1])
    }
}

/// A statement as source text.
pub open spec fn stmt_text(s: StmtModel) -> Seq<char>
    decreases s, 0nat,
{
    match s {
        StmtModel::Local { pattern, init: Some(e) } => pattern + " = "@ + expr_text(e) + ";"@,
        StmtModel::Local { pattern, init: None } => pattern + ";"@,
        StmtModel::Item(ItemModel::Fn(f)) => item_fn_text(f),
        StmtModel::Item(ItemModel::Verbatim(text)) => text,
        StmtModel::Expr(e) => expr_text(e),
        StmtModel::Semi(e) => expr_text(e) + ";"@,
    }
}

/// The first `n` statements as source text, each with a blank after it.
pub open spec fn stmts_text(stmts: Seq<StmtModel>, n: nat) -> Seq<char>
    decreases stmts, n,
{
    if n == 0 || n > stmts.len() {
        Seq::empty()
    } else {
        stmts_text(stmts, (n - 1) as nat) + stmt_text(stmts[n - 1]) + " "@
    }
}

/// A block as source text, between braces.
pub open spec fn block_text(b: BlockModel) -> Seq<char>
    decreases b, 0nat,
{
    match b.tail {
        Some(t) => "{ "@ + stmts_text(b.stmts, b.stmts.len()) + expr_text(*t) + " }"@,
        None => "{ "@ + stmts_text(b.stmts, b.stmts.len()) + "}"@,
    }
}

/// A return type as source text: nothing, or the arrow and the type.
pub open spec fn return_type_text(r: ReturnTypeModel) -> Seq<char> {
    match r {
        ReturnTypeModel::Default => Seq::empty(),
        ReturnTypeModel::Type(t) => " -> "@ + type_text(t),
    }
}

/// A signature as source text.
pub open spec fn signature_text(sig: SignatureModel) -> Seq<char> {
    sig.header + return_type_text(sig.output) + " "@ + sig.where_clause
}

/// A function as source text.
pub open spec fn item_fn_text(f: ItemFnModel) -> Seq<char>
    decreases f, 0nat,
{
    f.front + " "@ + signature_text(f.sig) + " "@ + block_text(f.block)
}

/// A definition as source text. A trait method without a body ends in `;`.
pub open spec fn definition_text(d: DefinitionModel) -> Seq<char> {
    match d {
        DefinitionModel::ItemFn(f) => item_fn_text(f),
        DefinitionModel::ImplItemMethod(f) => item_fn_text(f),
        DefinitionModel::TraitItemMethod(m) => match m.default {
            Some(b) => m.front + " "@ + signature_text(m.sig) + " "@ + block_text(b),
            None => m.front + " "@ + signature_text(m.sig) + ";"@,
        },
        DefinitionModel::Verbatim(text) => text,
    }
}

/// A type as source text.
pub fn render_type(t: &TypeRef) -> (r: String)
    ensures
        r@ == type_text(t@),
    decreases t, 0nat,
{
    match t {
        TypeRef::Path(p) => render_path(p),
        TypeRef::Unit => String::from_str("()"),
        TypeRef::Infer => String::from_str("_"),
        TypeRef::Verbatim(text) => text.clone(),
    }
}

/// A path as source text.
pub fn render_path(p: &TypePath) -> (r: String)
    ensures
        r@ == path_text(p@),
    decreases p, 0nat,
{
    proof {
        lemma_path_view(*p);
    }
    let mut segments = String::new();
    let mut i: usize = 0;
    while i < p.segments.len()
        invariant
            i <= p.segments.len(),
            segments@ == segments_text(segments_view(p.segments@), i as nat),
        decreases p.segments.len() - i,
    {
        if i > 0 {
            segments.append("::");
        }
        let segment = render_segment(&p.segments[i]);
        segments.append(segment.as_str());
        i += 1;
    }
    let mut out = match &p.qself {
        Some(q) => {
            let mut out = q.clone();
            out.append("::");
            out
        },
        None => if p.leading_colon {
            String::from_str("::")
        } else {
            String::new()
        },
    };
    out.append(segments.as_str());
    out
}

/// A segment as source text.
pub fn render_segment(s: &PathSegment) -> (r: String)
    ensures
        r@ == segment_text(s@),
    decreases s, 0nat,
{
    proof {
        lemma_arguments_view(s.arguments);
    }
    let mut out = s.ident.clone();
    match &s.arguments {
        PathArguments::Empty => {},
        PathArguments::AngleBracketed(args) => {
            let mut inner = String::new();
            let mut i: usize = 0;
            while i < args.len()
                invariant
                    i <= args.len(),
                    inner@ == arguments_text(arguments_view(args@), i as nat),
                    s.arguments is AngleBracketed,
                    s.arguments->AngleBracketed_0 == *args,
                decreases args.len() - i,
            {
                if i > 0 {
                    inner.append(", ");
                }
                let argument = match &args[i] {
                    GenericArgument::Type(t) => render_type(t),
                    GenericArgument::Verbatim(text) => text.clone(),
                };
                assert(argument@ == argument_text(args[i as int]@));
                inner.append(argument.as_str());
                i += 1;
            }
            out.append("<");
            out.append(inner.as_str());
            out.append(">");
        },
        PathArguments::Parenthesized(text) => {
            out.append(text.as_str());
        },
    }
    out
}

/// An expression as source text.
pub fn render_expr(e: &Expr) -> (r: String)
    ensures
        r@ == expr_text(e@),
    decreases e, 0nat,
{
    proof {
        lemma_expr_view(*e);
    }
    match e {
        Expr::Verbatim(text) => text.clone(),
        Expr::Unit => String::from_str("()"),
        Expr::Return(None) => String::from_str("return"),
        Expr::Return(Some(v)) => {
            let mut out = String::from_str("return ");
            out.append(render_expr(&**v).as_str());
            out
        },
        Expr::Throw(None) => String::from_str("throw!()"),
        Expr::Throw(Some(v)) => {
            let mut out = String::from_str("throw!(");
            out.append(render_expr(&**v).as_str());
            out.append(")");
            out
        },
        Expr::Closure { header, body } => {
            let mut out = header.clone();
            out.append(" ");
            out.append(render_expr(&**body).as_str());
            out
        },
        Expr::Async { header, block } => {
            let mut out = header.clone();
            out.append(" ");
            out.append(render_block(block).as_str());
            out
        },
        Expr::Block(b) => render_block(b),
        Expr::Composite(parts) => {
            let mut out = String::new();
            let mut i: usize = 0;
            while i < parts.len()
                invariant
                    i <= parts.len(),
                    out@ == parts_text(exprs_view(parts@), i as nat),
                    e is Composite,
                    e->Composite_0 == *parts,
                decreases parts.len() - i,
            {
                if i > 0 {
                    out.append(" ");
                }
                let part = render_expr(&parts[i]);
                out.append(part.as_str());
                i += 1;
            }
            out
        },
        Expr::Success(v) => {
            let mut out = String::from_str("<_ as ::fehler::__internal::_Succeed>::from_ok(");
            out.append(render_expr(&**v).as_str());
            out.append(")");
            out
        },
        Expr::Failure(v) => {
            let mut out = String::from_str(
                "<_ as ::fehler::__internal::_Throw>::from_error(::core::convert::From::from(",
            );
            out.append(render_expr(&**v).as_str());
            out.append("))");
            out
        },
        Expr::EmptyFailure => String::from_str("<_ as ::core::default::Default>::default()"),
    }
}

/// A statement as source text.
pub fn render_stmt(s: &Stmt) -> (r: String)
    ensures
        r@ == stmt_text(s@),
    decreases s, 0nat,
{
    proof {
        lemma_stmt_view(*s);
    }
    match s {
        Stmt::Local { pattern, init: Some(e) } => {
            let mut out = pattern.clone();
            out.append(" = ");
            out.append(render_expr(e).as_str());
            out.append(";");
            out
        },
        Stmt::Local { pattern, init: None } => {
            let mut out = pattern.clone();
            out.append(";");
            out
        },
        Stmt::Item(Item::Fn(f)) => render_item_fn(f),
        Stmt::Item(Item::Verbatim(text)) => text.clone(),
        Stmt::Expr(e) => render_expr(e),
        Stmt::Semi(e) => {
            let mut out = render_expr(e);
            out.append(";");
            out
        },
    }
}

/// A block as source text.
pub fn render_block(b: &Block) -> (r: String)
    ensures
        r@ == block_text(b@),
    decreases b, 0nat,
{
    proof {
        lemma_block_view(*b);
    }
    let mut stmts = String::new();
    let mut i: usize = 0;
    while i < b.stmts.len()
        invariant
            i <= b.stmts.len(),
            stmts@ == stmts_text(stmts_view(b.stmts@), i as nat),
        decreases b.stmts.len() - i,
    {
        let stmt = render_stmt(&b.stmts[i]);
        stmts.append(stmt.as_str());
        stmts.append(" ");
        i += 1;
    }
    let mut out = String::from_str("{ ");
    out.append(stmts.as_str());
    match &b.tail {
        Some(t) => {
            out.append(render_expr(&**t).as_str());
            out.append(" }");
        },
        None => {
            out.append("}");
        },
    }
    out
}

/// A return type as source text.
pub fn render_return_type(r: &ReturnType) -> (out: String)
    ensures
        out@ == return_type_text(r@),
{
    match r {
        ReturnType::Default => String::new(),
        ReturnType::Type(t) => {
            let mut out = String::from_str(" -> ");
            out.append(render_type(t).as_str());
            out
        },
    }
}

/// A signature as source text.
pub fn render_signature(sig: &Signature) -> (r: String)
    ensures
        r@ == signature_text(sig@),
{
    let mut out = sig.header.clone();
    out.append(render_return_type(&sig.output).as_str());
    out.append(" ");
    out.append(sig.where_clause.as_str());
    out
}

/// A function as source text.
pub fn render_item_fn(f: &ItemFn) -> (r: String)
    ensures
        r@ == item_fn_text(f@),
    decreases f, 0nat,
{
    let mut out = f.front.clone();
    out.append(" ");
    out.append(render_signature(&f.sig).as_str());
    out.append(" ");
    out.append(render_block(&f.block).as_str());
    out
}

/// A definition as source text.
pub fn render(d: &Definition) -> (r: String)
    ensures
        r@ == definition_text(d@),
{
    match d {
        Definition::ItemFn(f) => render_item_fn(f),
        Definition::ImplItemMethod(m) => {
            let mut out = m.front.clone();
            out.append(" ");
            out.append(render_signature(&m.sig).as_str());
            out.append(" ");
            out.append(render_block(&m.block).as_str());
            out
        },
        Definition::TraitItemMethod(m) => {
            let mut out = m.front.clone();
            out.append(" ");
            out.append(render_signature(&m.sig).as_str());
            match &m.default {
                Some(b) => {
                    out.append(" ");
                    out.append(render_block(b).as_str());
                },
                None => {
                    out.append(";");
                },
            }
            out
        },
        Definition::Verbatim(text) => text.clone(),
    }
}

} // verus!
