use fehler::args::{
    default_error, inject, innermost_path_arguments, result, unit, ArgToken, Args, ErrorKind,
    TransformError,
};
use fehler::syntax::{
    Block, Definition, Expr, ImplItemMethod, Item, ItemFn, ReturnType, Signature, Stmt,
    TraitItemMethod,
};
use fehler::throws::{
    fold_block, fold_expr, fold_expr_return, fold_expr_throw, fold_stmt, is_unit, make_fn_block,
    ok, ok_unit, Stage, Throws,
};
use fehler::types::{GenericArgument, PathArguments, PathSegment, TypePath, TypeRef};

fn open(ident: &str) -> PathSegment {
    PathSegment { ident: ident.to_string(), arguments: PathArguments::Empty }
}

fn with_args(ident: &str, args: Vec<GenericArgument>) -> PathSegment {
    PathSegment { ident: ident.to_string(), arguments: PathArguments::AngleBracketed(args) }
}

fn path_of(segments: Vec<PathSegment>) -> TypeRef {
    TypeRef::Path(TypePath { qself: None, leading_colon: false, segments })
}

fn path(ident: &str) -> TypeRef {
    path_of(vec![open(ident)])
}

fn ty(t: TypeRef) -> GenericArgument {
    GenericArgument::Type(t)
}

/// `::core::result::Result<ok, err>`
fn core_result(ok: TypeRef, err: TypeRef) -> TypeRef {
    TypeRef::Path(TypePath {
        qself: None,
        leading_colon: true,
        segments: vec![open("core"), open("result"), with_args("Result", vec![ty(ok), ty(err)])],
    })
}

fn text(s: &str) -> Expr {
    Expr::Verbatim(s.to_string())
}

fn success(e: Expr) -> Expr {
    Expr::Success(Box::new(e))
}

fn failure(e: Expr) -> Expr {
    Expr::Failure(Box::new(e))
}

fn exit(e: Expr) -> Expr {
    Expr::Return(Some(Box::new(e)))
}

fn throw(e: Expr) -> Expr {
    Expr::Throw(Some(Box::new(e)))
}

fn block(stmts: Vec<Stmt>, tail: Option<Expr>) -> Block {
    Block { stmts, tail: tail.map(Box::new) }
}

fn if_then(cond: &str, then: Block) -> Expr {
    Expr::Composite(vec![text("if"), text(cond), Expr::Block(then)])
}

fn function(header: &str, output: ReturnType, body: Block) -> ItemFn {
    ItemFn {
        front: String::new(),
        sig: Signature { header: header.to_string(), output, where_clause: String::new() },
        block: body,
    }
}

fn rewrite(args: Vec<ArgToken>, f: ItemFn) -> Result<ItemFn, TransformError> {
    match fehler::throws(args, Definition::ItemFn(f)) {
        Ok(Definition::ItemFn(f)) => Ok(f),
        Ok(other) => panic!("not a function: {:?}", other),
        Err(e) => Err(e),
    }
}

fn infer() -> Vec<ArgToken> {
    vec![ArgToken::Type(TypeRef::Infer)]
}

// The arguments of the annotation.

#[test]
fn no_arguments_give_the_defaults() {
    let mut args = Args::parse(vec![]).unwrap();
    assert!(args.has_error());
    assert_eq!(
        args.ret(ReturnType::Default),
        Ok(ReturnType::Type(core_result(TypeRef::Unit, path("Error"))))
    );
}

#[test]
fn underscore_stands_for_the_default_failure_type() {
    let mut args = Args::parse(infer()).unwrap();
    assert_eq!(
        args.ret(ReturnType::Type(path("i32"))),
        Ok(ReturnType::Type(core_result(path("i32"), path("Error"))))
    );
    let mut args = Args::resolve(infer(), path("MyError")).unwrap();
    assert_eq!(
        args.ret(ReturnType::Type(path("i32"))),
        Ok(ReturnType::Type(core_result(path("i32"), path("MyError"))))
    );
}

#[test]
fn a_failure_type_alone() {
    let mut args = Args::parse(vec![ArgToken::Type(path("i32"))]).unwrap();
    assert_eq!(
        args.ret(ReturnType::Type(TypeRef::Unit)),
        Ok(ReturnType::Type(core_result(TypeRef::Unit, path("i32"))))
    );
}

#[test]
fn a_wrapper_alone_takes_one_payload() {
    let mut args = Args::parse(vec![ArgToken::As, ArgToken::Type(path("Option"))]).unwrap();
    assert!(!args.has_error());
    assert_eq!(
        args.ret(ReturnType::Type(path("i32"))),
        Ok(ReturnType::Type(path_of(vec![with_args("Option", vec![ty(path("i32"))])])))
    );
}

#[test]
fn a_failure_type_and_a_wrapper() {
    let tokens = vec![ArgToken::Type(path("E")), ArgToken::As, ArgToken::Type(path("MyTry"))];
    let mut args = Args::parse(tokens).unwrap();
    assert_eq!(
        args.ret(ReturnType::Default),
        Ok(ReturnType::Type(path_of(vec![with_args(
            "MyTry",
            vec![ty(TypeRef::Unit), ty(path("E"))]
        )])))
    );
}

#[test]
fn malformed_arguments_are_refused() {
    let refused = |tokens: Vec<ArgToken>| {
        assert_eq!(Args::parse(tokens), Err(TransformError::MalformedArguments));
    };
    refused(vec![ArgToken::As]);
    refused(vec![ArgToken::Verbatim("42".to_string())]);
    refused(vec![ArgToken::Type(path("E")), ArgToken::Type(path("F"))]);
    refused(vec![ArgToken::Type(path("E")), ArgToken::As]);
    refused(vec![ArgToken::As, ArgToken::As]);
    refused(vec![ArgToken::As, ArgToken::Type(path("W")), ArgToken::Type(path("E"))]);
    refused(vec![ArgToken::Type(path("E")), ArgToken::As, ArgToken::Verbatim("1".to_string())]);
    refused(vec![
        ArgToken::Type(path("E")),
        ArgToken::As,
        ArgToken::Type(path("W")),
        ArgToken::Type(path("X")),
    ]);
}

#[test]
fn the_wrapper_is_used_up_by_the_return_type() {
    let mut args = Args::parse(vec![]).unwrap();
    assert!(args.ret(ReturnType::Default).is_ok());
    assert_eq!(args.ret(ReturnType::Default), Err(TransformError::WrapperMustBePath));
    assert!(!args.has_error());
}

#[test]
fn default_types() {
    assert_eq!(unit(), TypeRef::Unit);
    assert_eq!(default_error(), path("Error"));
    assert_eq!(
        result(),
        TypeRef::Path(TypePath {
            qself: None,
            leading_colon: true,
            segments: vec![open("core"), open("result"), open("Result")],
        })
    );
}

// Putting payloads into a wrapper.

#[test]
fn inject_two_payloads_into_an_open_wrapper() {
    assert_eq!(
        inject(path("Result"), vec![path("T"), path("E")]),
        Ok(path_of(vec![with_args("Result", vec![ty(path("T")), ty(path("E"))])]))
    );
}

#[test]
fn inject_one_payload_into_an_open_wrapper() {
    assert_eq!(
        inject(path("Option"), vec![path("T")]),
        Ok(path_of(vec![with_args("Option", vec![ty(path("T"))])]))
    );
}

#[test]
fn inject_goes_into_the_innermost_open_segment() {
    // MyTry<X, Result> takes the payloads in `Result`.
    let wrapper = path_of(vec![
        open("my"),
        with_args("MyTry", vec![ty(path("X")), ty(path("Result"))]),
    ]);
    let want = path_of(vec![
        open("my"),
        with_args(
            "MyTry",
            vec![
                ty(path("X")),
                ty(path_of(vec![with_args("Result", vec![ty(path("T")), ty(path("E"))])])),
            ],
        ),
    ]);
    assert_eq!(inject(wrapper, vec![path("T"), path("E")]), Ok(want));
}

#[test]
fn inject_goes_two_levels_down() {
    let wrapper = path_of(vec![with_args(
        "A",
        vec![ty(path_of(vec![with_args("B", vec![ty(path("C")), ty(path("Poll"))])]))],
    )]);
    let want = path_of(vec![with_args(
        "A",
        vec![ty(path_of(vec![with_args(
            "B",
            vec![ty(path("C")), ty(path_of(vec![with_args("Poll", vec![ty(path("T"))])]))],
        )]))],
    )]);
    assert_eq!(inject(wrapper, vec![path("T")]), Ok(want));
}

#[test]
fn inject_keeps_the_qualified_self_and_the_leading_colons() {
    let wrapper = TypeRef::Path(TypePath {
        qself: Some("<T as Outcome>".to_string()),
        leading_colon: true,
        segments: vec![open("Wrapper")],
    });
    let want = TypeRef::Path(TypePath {
        qself: Some("<T as Outcome>".to_string()),
        leading_colon: true,
        segments: vec![with_args("Wrapper", vec![ty(TypeRef::Unit)])],
    });
    assert_eq!(inject(wrapper, vec![TypeRef::Unit]), Ok(want));
}

#[test]
fn inject_refuses_what_is_no_path() {
    let refused = |wrapper: TypeRef| {
        assert_eq!(inject(wrapper, vec![path("T")]), Err(TransformError::WrapperMustBePath));
    };
    refused(TypeRef::Unit);
    refused(TypeRef::Infer);
    refused(TypeRef::Verbatim("&'static str".to_string()));
    refused(path_of(vec![]));
    refused(path_of(vec![PathSegment {
        ident: "Fn".to_string(),
        arguments: PathArguments::Parenthesized("(i32) -> i32".to_string()),
    }]));
    refused(path_of(vec![with_args(
        "W",
        vec![ty(path_of(vec![PathSegment {
            ident: "Fn".to_string(),
            arguments: PathArguments::Parenthesized("()".to_string()),
        }]))],
    )]));
}

#[test]
fn inject_refuses_strange_wrappers() {
    let refused = |wrapper: TypeRef| {
        assert_eq!(inject(wrapper, vec![path("T")]), Err(TransformError::StrangeWrapper));
    };
    // The last argument is a lifetime.
    refused(path_of(vec![with_args("MyTry", vec![GenericArgument::Verbatim("'a".to_string())])]));
    // The last argument is no path type.
    refused(path_of(vec![with_args("MyTry", vec![ty(path("X")), ty(TypeRef::Unit)])]));
    refused(path_of(vec![with_args("MyTry", vec![ty(TypeRef::Verbatim("[u8]".to_string()))])]));
    // No argument between the brackets.
    refused(path_of(vec![with_args("MyTry", vec![])]));
    // One level down.
    refused(path_of(vec![with_args(
        "A",
        vec![ty(path_of(vec![with_args("B", vec![ty(TypeRef::Infer)])]))],
    )]));
}

#[test]
fn innermost_path_arguments_fills_the_open_segment() {
    let wrapper = TypePath { qself: None, leading_colon: false, segments: vec![open("W")] };
    assert_eq!(
        innermost_path_arguments(wrapper, vec![GenericArgument::Verbatim("'a".to_string())]),
        Ok(TypePath {
            qself: None,
            leading_colon: false,
            segments: vec![with_args("W", vec![GenericArgument::Verbatim("'a".to_string())])],
        })
    );
}

#[test]
fn errors_have_a_kind_and_a_message() {
    assert_eq!(TransformError::NotAFunction.kind(), ErrorKind::Usage);
    assert_eq!(TransformError::WrapperMustBePath.kind(), ErrorKind::Configuration);
    assert_eq!(TransformError::StrangeWrapper.kind(), ErrorKind::Configuration);
    assert_eq!(TransformError::EmptyRaise.kind(), ErrorKind::Configuration);
    assert_eq!(TransformError::MalformedArguments.kind(), ErrorKind::Configuration);
    assert_eq!(
        TransformError::WrapperMustBePath.message(),
        "Wrapper type must be a normal path type"
    );
    assert_eq!(
        TransformError::StrangeWrapper.message(),
        "Certain strange wrapper types not supported"
    );
    assert_eq!(
        TransformError::NotAFunction.message(),
        "#[throws] attribute can only be applied to functions and methods"
    );
    assert_eq!(
        TransformError::EmptyRaise.message(),
        "throw!() needs a wrapper with a single type argument"
    );
    assert_eq!(
        TransformError::MalformedArguments.message(),
        "expected `[Error | _] [as Wrapper]`"
    );
}

// Whole definitions.

#[test]
fn unit_fn() {
    // #[throws(_)] pub fn unit_fn() { }
    let f = function("pub fn unit_fn()", ReturnType::Default, block(vec![], None));
    let want = function(
        "pub fn unit_fn()",
        ReturnType::Type(core_result(TypeRef::Unit, path("Error"))),
        block(vec![], Some(success(Expr::Unit))),
    );
    assert_eq!(rewrite(infer(), f), Ok(want));
}

#[test]
fn returns_fn() {
    // #[throws(_)] pub fn returns_fn() -> i32 { return 0; }
    let f = function(
        "pub fn returns_fn()",
        ReturnType::Type(path("i32")),
        block(vec![Stmt::Semi(exit(text("0")))], None),
    );
    let want = function(
        "pub fn returns_fn()",
        ReturnType::Type(core_result(path("i32"), path("Error"))),
        block(vec![Stmt::Semi(exit(success(text("0"))))], None),
    );
    assert_eq!(rewrite(infer(), f), Ok(want));
}

#[test]
fn returns_unit_fn() {
    // #[throws(_)] pub fn returns_unit_fn() { if true { return; } }
    let f = function(
        "pub fn returns_unit_fn()",
        ReturnType::Default,
        block(
            vec![],
            Some(if_then("true", block(vec![Stmt::Semi(Expr::Return(None))], None))),
        ),
    );
    let want = function(
        "pub fn returns_unit_fn()",
        ReturnType::Type(core_result(TypeRef::Unit, path("Error"))),
        block(
            vec![Stmt::Semi(if_then(
                "true",
                block(vec![Stmt::Semi(exit(success(Expr::Unit)))], None),
            ))],
            Some(success(Expr::Unit)),
        ),
    );
    assert_eq!(rewrite(infer(), f), Ok(want));
}

#[test]
fn explicit_unit() {
    // #[throws(_)] pub fn explicit_unit() -> () { }
    let f = function("pub fn explicit_unit()", ReturnType::Type(TypeRef::Unit), block(vec![], None));
    let want = function(
        "pub fn explicit_unit()",
        ReturnType::Type(core_result(TypeRef::Unit, path("Error"))),
        block(vec![], Some(success(Expr::Unit))),
    );
    assert_eq!(rewrite(infer(), f), Ok(want));
}

#[test]
fn tail_returns_value() {
    // #[throws(_)] pub fn tail_returns_value() -> i32 { 0 }
    let f = function(
        "pub fn tail_returns_value()",
        ReturnType::Type(path("i32")),
        block(vec![], Some(text("0"))),
    );
    let want = function(
        "pub fn tail_returns_value()",
        ReturnType::Type(core_result(path("i32"), path("Error"))),
        block(vec![], Some(success(text("0")))),
    );
    assert_eq!(rewrite(infer(), f), Ok(want));
}

#[test]
fn tail_and_early_exit_hand_back_the_same_outcome() {
    let tail = fold_block(&block(vec![], Some(text("0"))), false).unwrap();
    let tail = make_fn_block(tail, false);
    let early = fold_expr(&exit(text("0")), false).unwrap();
    assert_eq!(tail.tail, Some(Box::new(success(text("0")))));
    assert_eq!(early, exit(success(text("0"))));
}

#[test]
fn non_unit_body_without_tail_gets_none() {
    // fn f() -> i32 { loop {} }
    let body = block(vec![Stmt::Expr(Expr::Composite(vec![text("loop"), Expr::Block(block(vec![], None))]))], None);
    let f = function("fn f()", ReturnType::Type(path("i32")), body);
    let got = rewrite(infer(), f).unwrap();
    assert_eq!(got.block.tail, None);
    assert_eq!(got.block.stmts.len(), 1);
}

#[test]
fn throws_error() {
    // #[throws(i32)] pub fn throws_error() { if true { throw!(0); } }
    let f = function(
        "pub fn throws_error()",
        ReturnType::Default,
        block(vec![], Some(if_then("true", block(vec![Stmt::Semi(throw(text("0")))], None)))),
    );
    let want = function(
        "pub fn throws_error()",
        ReturnType::Type(core_result(TypeRef::Unit, path("i32"))),
        block(
            vec![Stmt::Semi(if_then(
                "true",
                block(vec![Stmt::Semi(exit(failure(text("0"))))], None),
            ))],
            Some(success(Expr::Unit)),
        ),
    );
    assert_eq!(rewrite(vec![ArgToken::Type(path("i32"))], f), Ok(want));
}

#[test]
fn throws_and_has_return_type() {
    // #[throws(i32)]
    // pub fn throws_and_has_return_type() -> &'static str {
    //     if true { return "success"; } else if false { throw!(0); }
    //     "okay"
    // }
    let str_type = TypeRef::Verbatim("&'static str".to_string());
    let cascade = |first: Expr, second: Expr| {
        Stmt::Expr(Expr::Composite(vec![
            text("if"),
            text("true"),
            Expr::Block(block(vec![Stmt::Semi(first)], None)),
            text("else"),
            Expr::Composite(vec![
                text("if"),
                text("false"),
                Expr::Block(block(vec![Stmt::Semi(second)], None)),
            ]),
        ]))
    };
    let f = function(
        "pub fn throws_and_has_return_type()",
        ReturnType::Type(TypeRef::Verbatim("&'static str".to_string())),
        block(vec![cascade(exit(text("\"success\"")), throw(text("0")))], Some(text("\"okay\""))),
    );
    let want = function(
        "pub fn throws_and_has_return_type()",
        ReturnType::Type(core_result(str_type, path("i32"))),
        block(
            vec![cascade(exit(success(text("\"success\""))), exit(failure(text("0"))))],
            Some(success(text("\"okay\""))),
        ),
    );
    assert_eq!(rewrite(vec![ArgToken::Type(path("i32"))], f), Ok(want));
}

#[test]
fn throws_generics() {
    // #[throws(E)] pub fn throws_generics<E>() { }
    let f = function("pub fn throws_generics<E>()", ReturnType::Default, block(vec![], None));
    let got = rewrite(vec![ArgToken::Type(path("E"))], f).unwrap();
    assert_eq!(got.sig.output, ReturnType::Type(core_result(TypeRef::Unit, path("E"))));
    assert_eq!(got.sig.header, "pub fn throws_generics<E>()");
}

#[test]
fn test_expansion_of_a_raise() {
    // #[throws(i32)] fn no_std_fn() { throw!(0); }
    let f = function(
        "fn no_std_fn()",
        ReturnType::Default,
        block(vec![Stmt::Semi(throw(text("0")))], None),
    );
    let want = function(
        "fn no_std_fn()",
        ReturnType::Type(core_result(TypeRef::Unit, path("i32"))),
        block(vec![Stmt::Semi(exit(failure(text("0"))))], Some(success(Expr::Unit))),
    );
    assert_eq!(rewrite(vec![ArgToken::Type(path("i32"))], f), Ok(want));
}

#[test]
fn throws_as_option() {
    // #[throws(as Option)] fn foo(x: bool) -> i32 { if x { throw!(); } 0 }
    let f = function(
        "fn foo(x: bool)",
        ReturnType::Type(path("i32")),
        block(
            vec![Stmt::Expr(if_then("x", block(vec![Stmt::Semi(Expr::Throw(None))], None)))],
            Some(text("0")),
        ),
    );
    let want = function(
        "fn foo(x: bool)",
        ReturnType::Type(path_of(vec![with_args("Option", vec![ty(path("i32"))])])),
        block(
            vec![Stmt::Expr(if_then(
                "x",
                block(vec![Stmt::Semi(exit(Expr::EmptyFailure))], None),
            ))],
            Some(success(text("0"))),
        ),
    );
    assert_eq!(rewrite(vec![ArgToken::As, ArgToken::Type(path("Option"))], f), Ok(want));
}

#[test]
fn empty_raise_needs_a_wrapper_without_failure_type() {
    let body = || block(vec![Stmt::Semi(Expr::Throw(None))], None);
    let f = function("fn f()", ReturnType::Default, body());
    assert_eq!(rewrite(vec![], f), Err(TransformError::EmptyRaise));
    let f = function("fn f()", ReturnType::Default, body());
    assert_eq!(
        rewrite(vec![ArgToken::Type(path("E")), ArgToken::As, ArgToken::Type(path("W"))], f),
        Err(TransformError::EmptyRaise)
    );
    // Deep inside the body, too.
    let deep = block(
        vec![Stmt::Local {
            pattern: "x".to_string(),
            init: Some(Expr::Composite(vec![
                text("match y"),
                Expr::Block(block(vec![], Some(success(exit(failure(Expr::Throw(None))))))),
            ])),
        }],
        None,
    );
    assert_eq!(fold_block(&deep, false), Err(TransformError::EmptyRaise));
    assert!(fold_block(&deep, true).is_ok());
}

#[test]
fn a_wrapper_error_comes_before_an_empty_raise() {
    let f = function("fn f()", ReturnType::Default, block(vec![Stmt::Semi(Expr::Throw(None))], None));
    assert_eq!(
        rewrite(vec![ArgToken::Type(path("E")), ArgToken::As, ArgToken::Type(TypeRef::Unit)], f),
        Err(TransformError::WrapperMustBePath)
    );
}

#[test]
fn impl_methods() {
    // impl Foo { #[throws(_)] pub fn bar(&self) -> i32 { if true { return 1; } 0 } }
    let m = ImplItemMethod {
        front: "pub".to_string(),
        sig: Signature {
            header: "fn bar(&self)".to_string(),
            output: ReturnType::Type(path("i32")),
            where_clause: String::new(),
        },
        block: block(
            vec![Stmt::Expr(if_then("true", block(vec![Stmt::Semi(exit(text("1")))], None)))],
            Some(text("0")),
        ),
    };
    let want = ImplItemMethod {
        front: "pub".to_string(),
        sig: Signature {
            header: "fn bar(&self)".to_string(),
            output: ReturnType::Type(core_result(path("i32"), path("Error"))),
            where_clause: String::new(),
        },
        block: block(
            vec![Stmt::Expr(if_then(
                "true",
                block(vec![Stmt::Semi(exit(success(text("1"))))], None),
            ))],
            Some(success(text("0"))),
        ),
    };
    assert_eq!(
        fehler::throws(infer(), Definition::ImplItemMethod(m)),
        Ok(Definition::ImplItemMethod(want))
    );
}

#[test]
fn trait_methods() {
    let sig = |output: ReturnType| Signature {
        header: "fn get(&self)".to_string(),
        output,
        where_clause: "where Self: Sized".to_string(),
    };
    // Without a body, the signature alone is rewritten.
    let declared =
        TraitItemMethod { front: String::new(), sig: sig(ReturnType::Type(path("u8"))), default: None };
    let want = TraitItemMethod {
        front: String::new(),
        sig: sig(ReturnType::Type(core_result(path("u8"), path("Error")))),
        default: None,
    };
    assert_eq!(
        fehler::throws(vec![], Definition::TraitItemMethod(declared)),
        Ok(Definition::TraitItemMethod(want))
    );
    // With a default body, the body is rewritten too.
    let with_default = TraitItemMethod {
        front: String::new(),
        sig: sig(ReturnType::Default),
        default: Some(block(vec![Stmt::Semi(throw(text("e")))], Some(text("log()")))),
    };
    let want = TraitItemMethod {
        front: String::new(),
        sig: sig(ReturnType::Type(core_result(TypeRef::Unit, path("Error")))),
        default: Some(block(
            vec![Stmt::Semi(exit(failure(text("e")))), Stmt::Semi(text("log()"))],
            Some(success(Expr::Unit)),
        )),
    };
    assert_eq!(
        fehler::throws(vec![], Definition::TraitItemMethod(with_default)),
        Ok(Definition::TraitItemMethod(want))
    );
}

#[test]
fn only_functions_and_methods_can_be_annotated() {
    let input = Definition::Verbatim("struct Foo;".to_string());
    assert_eq!(fehler::throws(vec![], input), Err(TransformError::NotAFunction));
}

#[test]
fn malformed_arguments_refuse_the_definition() {
    let f = function("fn f()", ReturnType::Default, block(vec![], None));
    assert_eq!(rewrite(vec![ArgToken::As], f), Err(TransformError::MalformedArguments));
}

// Nested definitions.

fn inner_fn() -> ItemFn {
    // fn inner_fn() -> i32 { 0 }
    function("fn inner_fn()", ReturnType::Type(path("i32")), block(vec![], Some(text("0"))))
}

#[test]
fn has_inner_fn() {
    // #[throws(_)] pub fn has_inner_fn() { fn inner_fn() -> i32 { 0 } let _: i32 = inner_fn(); }
    let body = || {
        vec![
            Stmt::Item(Item::Fn(inner_fn())),
            Stmt::Local { pattern: "_: i32".to_string(), init: Some(text("inner_fn()")) },
        ]
    };
    let f = function("pub fn has_inner_fn()", ReturnType::Default, block(body(), None));
    let got = rewrite(infer(), f).unwrap();
    assert_eq!(got.block, block(body(), Some(success(Expr::Unit))));
}

#[test]
fn inner_function_with_exits_and_raises_stays() {
    let nested = || {
        Stmt::Item(Item::Fn(function(
            "fn foo()",
            ReturnType::Type(path("i32")),
            block(
                vec![Stmt::Semi(exit(text("1"))), Stmt::Semi(Expr::Throw(None))],
                Some(text("2")),
            ),
        )))
    };
    assert_eq!(fold_stmt(&nested(), false), Ok(nested()));
    let other = || Stmt::Item(Item::Verbatim("type X = fn();".to_string()));
    assert_eq!(fold_stmt(&other(), false), Ok(other()));
}

#[test]
fn has_inner_closure() {
    // let f = || 0;  and a closure that returns early
    let closure = || Expr::Closure { header: "||".to_string(), body: Box::new(exit(text("0"))) };
    assert_eq!(fold_expr(&closure(), false), Ok(closure()));
    let f = function(
        "pub fn has_inner_closure()",
        ReturnType::Default,
        block(
            vec![
                Stmt::Local { pattern: "f".to_string(), init: Some(closure()) },
                Stmt::Local { pattern: "_: i32".to_string(), init: Some(text("f()")) },
            ],
            None,
        ),
    );
    let got = rewrite(infer(), f).unwrap();
    assert_eq!(got.block.stmts[0], Stmt::Local { pattern: "f".to_string(), init: Some(closure()) });
}

#[test]
fn has_inner_async_block() {
    let inner = || Expr::Async {
        header: "async".to_string(),
        block: block(vec![Stmt::Semi(Expr::Throw(None))], Some(text("0"))),
    };
    assert_eq!(fold_expr(&inner(), false), Ok(inner()));
    let mut throws = Throws::new(Args::parse(vec![]).unwrap());
    assert_eq!(throws.fold_expr_async(inner()), inner());
    assert_eq!(
        throws.fold_expr_closure(Expr::Closure { header: "|x|".to_string(), body: Box::new(text("x")) }),
        Expr::Closure { header: "|x|".to_string(), body: Box::new(text("x")) }
    );
}

// One `Throws` rewrites once.

#[test]
fn a_second_definition_comes_back_as_it_is() {
    let mut throws = Throws::new(Args::parse(vec![]).unwrap());
    let first = function("fn a()", ReturnType::Default, block(vec![], None));
    let rewritten = throws.fold_item_fn(first).unwrap();
    assert_eq!(rewritten.block.tail, Some(Box::new(success(Expr::Unit))));
    let second = || function("fn b()", ReturnType::Default, block(vec![Stmt::Semi(Expr::Return(None))], None));
    assert_eq!(throws.fold_item_fn(second()), Ok(second()));
    assert_eq!(throws.fold(Definition::ItemFn(second())), Ok(Definition::ItemFn(second())));
    assert_eq!(throws.fold_return_type(ReturnType::Default), Ok(ReturnType::Default));
    let method = || TraitItemMethod {
        front: String::new(),
        sig: Signature {
            header: "fn c()".to_string(),
            output: ReturnType::Default,
            where_clause: String::new(),
        },
        default: None,
    };
    assert_eq!(throws.fold_trait_item_method(method()), Ok(method()));
    let (sig, body) = throws
        .fold_sig_and_body(second().sig, second().block)
        .unwrap();
    assert_eq!((sig, body), (second().sig, second().block));
}

#[test]
fn a_refused_definition_uses_the_rewriting_up() {
    let mut throws = Throws::new(
        Args::parse(vec![ArgToken::As, ArgToken::Type(TypeRef::Verbatim("[u8]".to_string()))]).unwrap(),
    );
    let f = || function("fn a()", ReturnType::Default, block(vec![], None));
    assert_eq!(throws.fold_item_fn(f()), Err(TransformError::WrapperMustBePath));
    assert_eq!(throws.fold_item_fn(f()), Ok(f()));
}

// The parts of a body.

#[test]
fn early_exits() {
    assert_eq!(fold_expr_return(&None, false), Ok(exit(success(Expr::Unit))));
    assert_eq!(
        fold_expr_return(&Some(Box::new(text("x"))), false),
        Ok(exit(success(text("x"))))
    );
    // An exit inside the value of an exit.
    assert_eq!(
        fold_expr(&exit(exit(text("x"))), false),
        Ok(exit(success(exit(success(text("x"))))))
    );
}

#[test]
fn raises() {
    assert_eq!(fold_expr_throw(&Some(Box::new(text("0"))), false), Ok(exit(failure(text("0")))));
    assert_eq!(fold_expr_throw(&Some(Box::new(text("0"))), true), Ok(exit(failure(text("0")))));
    assert_eq!(fold_expr_throw(&None, true), Ok(exit(Expr::EmptyFailure)));
    assert_eq!(fold_expr_throw(&None, false), Err(TransformError::EmptyRaise));
    assert_eq!(fold_expr(&throw(Expr::Throw(None)), false), Err(TransformError::EmptyRaise));
}

#[test]
fn exits_inside_conditionals_and_loops() {
    let looping = |inner: Expr| {
        Expr::Composite(vec![
            text("for x in xs"),
            Expr::Block(block(
                vec![Stmt::Expr(if_then("x > 0", block(vec![Stmt::Semi(inner)], None)))],
                None,
            )),
        ])
    };
    assert_eq!(
        fold_expr(&looping(exit(text("x"))), false),
        Ok(looping(exit(success(text("x")))))
    );
}

#[test]
fn what_holds_no_exit_stays() {
    let plain = || {
        Expr::Composite(vec![
            text("f"),
            Expr::Unit,
            Expr::EmptyFailure,
            success(text("a")),
            failure(text("b")),
            Expr::Block(block(
                vec![
                    Stmt::Local { pattern: "y".to_string(), init: None },
                    Stmt::Expr(text("g()")),
                    Stmt::Semi(text("h()")),
                ],
                Some(text("y")),
            )),
        ])
    };
    assert_eq!(fold_expr(&plain(), false), Ok(plain()));
}

#[test]
fn the_end_of_a_body() {
    let stmts = || vec![Stmt::Semi(text("a()"))];
    // A last expression, the unit type declared.
    assert_eq!(
        make_fn_block(block(stmts(), Some(text("b()"))), true),
        block(vec![Stmt::Semi(text("a()")), Stmt::Semi(text("b()"))], Some(success(Expr::Unit)))
    );
    // A last expression, another type declared.
    assert_eq!(
        make_fn_block(block(stmts(), Some(text("b()"))), false),
        block(stmts(), Some(success(text("b()"))))
    );
    // No last expression, the unit type declared.
    assert_eq!(make_fn_block(block(stmts(), None), true), block(stmts(), Some(success(Expr::Unit))));
    // No last expression, another type declared.
    assert_eq!(make_fn_block(block(stmts(), None), false), block(stmts(), None));
}

#[test]
fn success_wrappers() {
    assert_eq!(ok(text("x")), success(text("x")));
    assert_eq!(ok_unit(), success(Expr::Unit));
}

#[test]
fn unit_return_types() {
    assert!(is_unit(&ReturnType::Default));
    assert!(is_unit(&ReturnType::Type(TypeRef::Unit)));
    assert!(!is_unit(&ReturnType::Type(path("i32"))));
    assert!(!is_unit(&ReturnType::Type(TypeRef::Infer)));
    assert!(TypeRef::Unit.is_unit());
}

#[test]
fn clones_are_equal() {
    let e = Expr::Composite(vec![
        exit(text("a")),
        Expr::Throw(None),
        Expr::Closure { header: "||".to_string(), body: Box::new(Expr::Unit) },
        Expr::Block(block(vec![Stmt::Item(Item::Fn(inner_fn()))], Some(success(Expr::EmptyFailure)))),
    ]);
    assert_eq!(e.clone(), e);
    let t = core_result(path("T"), TypeRef::Verbatim("[u8]".to_string()));
    assert_eq!(t.clone(), t);
}

#[test]
fn stages_of_a_rewriting() {
    let mut throws = Throws::new(Args::parse(vec![]).unwrap());
    assert_eq!(throws.stage(), Stage::Unvisited);
    assert!(throws.fold_return_type(ReturnType::Default).is_ok());
    assert_eq!(throws.stage(), Stage::HeaderRewritten);
    // The return type is rewritten once.
    assert_eq!(throws.fold_return_type(ReturnType::Default), Ok(ReturnType::Default));

    let mut throws = Throws::new(Args::parse(vec![]).unwrap());
    let f = function("fn a()", ReturnType::Default, block(vec![], None));
    assert!(throws.fold(Definition::ItemFn(f)).is_ok());
    assert_eq!(throws.stage(), Stage::Done);

    // What is no function is refused, after a rewriting too.
    assert_eq!(
        throws.fold(Definition::Verbatim("mod m;".to_string())),
        Err(TransformError::NotAFunction)
    );
    assert_eq!(throws.stage(), Stage::Done);

    // What is no function leaves the rewriting where it was.
    let mut throws = Throws::new(Args::parse(vec![]).unwrap());
    assert!(throws.fold(Definition::Verbatim("mod m;".to_string())).is_err());
    assert_eq!(throws.stage(), Stage::Unvisited);

    // A refused return type ends the rewriting.
    let mut throws =
        Throws::new(Args::parse(vec![ArgToken::As, ArgToken::Type(TypeRef::Infer)]).unwrap());
    assert_eq!(
        throws.fold_return_type(ReturnType::Default),
        Err(TransformError::WrapperMustBePath)
    );
    assert_eq!(throws.stage(), Stage::Done);
}
