//! The arguments of the annotation, and the rewriting of the return type.
//!
//! The arguments name the failure type and the wrapper type:
//! `[failure-type | _] [as wrapper-type]`. The declared return type and the
//! failure type are then put into the innermost open segment of the wrapper.

use crate::syntax::{ReturnType, ReturnTypeModel};
use crate::types::{
    arguments_view, lemma_arguments_view, lemma_path_view, segments_view, ArgumentModel,
    ArgumentsModel, GenericArgument, PathArguments, PathModel, PathSegment, SegmentModel,
    TypeModel, TypePath, TypeRef,
};
use vstd::prelude::*;

verus! {

/// Why a definition was not rewritten.
#[derive(Clone, Copy, Debug, PartialEq, Eq)]
pub enum TransformError {
    /// The arguments of the annotation do not follow their grammar.
    MalformedArguments,
    /// The wrapper is no path type, or its last segment cannot take arguments
    /// between angle brackets.
    WrapperMustBePath,
    /// The wrapper has arguments, and the last of them is no path type.
    StrangeWrapper,
    /// A raise without a value, under a wrapper that takes a failure type.
    EmptyRaise,
    /// The annotation is attached to something that is no function or method.
    NotAFunction,
}

/// The two kinds of error.
#[derive(Clone, Copy, Debug, PartialEq, Eq)]
pub enum ErrorKind {
    /// The arguments or the wrapper type cannot be used.
    Configuration,
    /// The annotation stands in the wrong place.
    Usage,
}

impl TransformError {
    /// The kind of an error.
    pub open spec fn kind_of(self) -> ErrorKind {
        match self {
            TransformError::NotAFunction => ErrorKind::Usage,
            _ => ErrorKind::Configuration,
        }
    }

    /// The kind of this error.
    pub fn kind(&self) -> (r: ErrorKind)
        ensures
            r == self.kind_of(),
    {
        match self {
            TransformError::NotAFunction => ErrorKind::Usage,
            _ => ErrorKind::Configuration,
        }
    }

    /// The text that names the offending shape.
    pub open spec fn message_text(self) -> Seq<char> {
        match self {
            TransformError::MalformedArguments => "expected `[Error | _] [as Wrapper]`"@,
            TransformError::WrapperMustBePath => "Wrapper type must be a normal path type"@,
            TransformError::StrangeWrapper => "Certain strange wrapper types not supported"@,
            TransformError::EmptyRaise => "throw!() needs a wrapper with a single type argument"@,
            TransformError::NotAFunction =>
                "#[throws] attribute can only be applied to functions and methods"@,
        }
    }

    /// The text that names the offending shape.
    pub fn message(&self) -> (r: String)
        ensures
            r@ == self.message_text(),
    {
        match self {
            TransformError::MalformedArguments => String::from_str(
                "expected `[Error | _] [as Wrapper]`",
            ),
            TransformError::WrapperMustBePath => String::from_str(
                "Wrapper type must be a normal path type",
            ),
            TransformError::StrangeWrapper => String::from_str(
                "Certain strange wrapper types not supported",
            ),
            TransformError::EmptyRaise => String::from_str(
                "throw!() needs a wrapper with a single type argument",
            ),
            TransformError::NotAFunction => String::from_str(
                "#[throws] attribute can only be applied to functions and methods",
            ),
        }
    }
}

/// One item of the annotation's arguments.
#[derive(Debug, PartialEq, Eq)]
pub enum ArgToken {
    /// A type.
    Type(TypeRef),
    /// The keyword `as`.
    As,
    /// Anything else, as source text.
    Verbatim(String),
}

/// The mathematical value of an [`ArgToken`].
pub ghost enum ArgTokenModel {
    Type(TypeModel),
    As,
    Verbatim(Seq<char>),
}

impl View for ArgToken {
    type V = ArgTokenModel;

    open spec fn view(&self) -> ArgTokenModel {
        match self {
            ArgToken::Type(t) => ArgTokenModel::Type(t@),
            ArgToken::As => ArgTokenModel::As,
            ArgToken::Verbatim(s) => ArgTokenModel::Verbatim(s@),
        }
    }
}

/// The view of a sequence of argument items, element by element.
pub open spec fn tokens_view(v: Seq<ArgToken>) -> Seq<ArgTokenModel> {
    Seq::new(v.len(), |i: int| v[i]@)
}

/// The resolved arguments: the failure type and the wrapper type.
#[derive(Debug, PartialEq, Eq)]
pub struct Args {
    error: Option<TypeRef>,
    wrapper: Option<TypeRef>,
}

/// The mathematical value of an [`Args`].
pub ghost struct ArgsModel {
    /// The failure type; `None` where the wrapper takes none.
    pub error: Option<TypeModel>,
    /// The wrapper type; `None` once the return type has been rewritten.
    pub wrapper: Option<TypeModel>,
}

impl View for Args {
    type V = ArgsModel;

    closed spec fn view(&self) -> ArgsModel {
        ArgsModel {
            error: match self.error {
                Some(t) => Some(t@),
                None => None,
            },
            wrapper: match self.wrapper {
                Some(t) => Some(t@),
                None => None,
            },
        }
    }
}

/// A path segment without arguments.
pub open spec fn open_segment(ident: Seq<char>) -> SegmentModel {
    SegmentModel { ident, arguments: ArgumentsModel::Empty }
}

/// The unit type `()`.
pub open spec fn unit_model() -> TypeModel {
    TypeModel::Unit
}

/// The standard outcome type of two payloads, `::core::result::Result`.
pub open spec fn result_model() -> TypeModel {
    TypeModel::Path(
        PathModel {
            qself: None,
            leading_colon: true,
            segments: seq![
                open_segment("core"@),
                open_segment("result"@),
                open_segment("Result"@),
            ],
        },
    )
}

/// The failure type by convention: whatever `Error` names where the annotation stands.
pub open spec fn default_error_model() -> TypeModel {
    TypeModel::Path(
        PathModel { qself: None, leading_colon: false, segments: seq![open_segment("Error"@)] },
    )
}

/// The failure type that the arguments give: `_` stands for the default.
pub open spec fn failure_or_default(t: TypeModel, default_error: TypeModel) -> TypeModel {
    if t is Infer {
        default_error
    } else {
        t
    }
}

/// What the arguments resolve to. Four forms are accepted: nothing; a failure
/// type; `as` and a wrapper type; a failure type, `as` and a wrapper type.
pub open spec fn resolve_model(input: Seq<ArgTokenModel>, default_error: TypeModel) -> Result<
    ArgsModel,
    TransformError,
> {
    if input.len() == 0 {
        Ok(ArgsModel { error: Some(default_error), wrapper: Some(result_model()) })
    } else if input.len() == 1 && input[0] is Type {
        Ok(
            ArgsModel {
                error: Some(failure_or_default(input[0]->Type_0, default_error)),
                wrapper: Some(result_model()),
            },
        )
    } else if input.len() == 2 && input[0] is As && input[1] is Type {
        Ok(ArgsModel { error: None, wrapper: Some(input[1]->Type_0) })
    } else if input.len() == 3 && input[0] is Type && input[1] is As && input[2] is Type {
        Ok(
            ArgsModel {
                error: Some(failure_or_default(input[0]->Type_0, default_error)),
                wrapper: Some(input[2]->Type_0),
            },
        )
    } else {
        Err(TransformError::MalformedArguments)
    }
}

/// The path with `payloads` as the arguments of its innermost open segment.
///
/// The open segment is sought from the last segment of the path: where that
/// segment has no arguments, it is the one; where it has arguments between
/// angle brackets and the last of them is a path type, the search goes on in
/// that path.
pub open spec fn inject_path(path: PathModel, payloads: Seq<ArgumentModel>) -> Result<
    PathModel,
    TransformError,
>
    decreases path,
{
    if path.segments.len() == 0 {
        Err(TransformError::WrapperMustBePath)
    } else {
        let last = path.segments.last();
        match last.arguments {
            ArgumentsModel::Empty => Ok(
                PathModel {
                    segments: path.segments.drop_last().push(
                        SegmentModel {
                            ident: last.ident,
                            arguments: ArgumentsModel::AngleBracketed(payloads),
                        },
                    ),
                    ..path
                },
            ),
            ArgumentsModel::AngleBracketed(args) => {
                if args.len() > 0 && args.last() is Type && args.last()->Type_0 is Path {
                    match inject_path(args.last()->Type_0->Path_0, payloads) {
                        Ok(inner) => Ok(
                            PathModel {
                                segments: path.segments.drop_last().push(
                                    SegmentModel {
                                        ident: last.ident,
                                        arguments: ArgumentsModel::AngleBracketed(
                                            args.drop_last().push(
                                                ArgumentModel::Type(TypeModel::Path(inner)),
                                            ),
                                        ),
                                    },
                                ),
                                ..path
                            },
                        ),
                        Err(e) => Err(e),
                    }
                } else {
                    Err(TransformError::StrangeWrapper)
                }
            },
            ArgumentsModel::Parenthesized(_) => Err(TransformError::WrapperMustBePath),
        }
    }
}

/// The payload types as generic arguments, in order.
pub open spec fn as_arguments(payloads: Seq<TypeModel>) -> Seq<ArgumentModel> {
    Seq::new(payloads.len(), |i: int| ArgumentModel::Type(payloads[i]))
}

/// The wrapper with the payload types in its innermost open segment.
pub open spec fn inject_model(wrapper: TypeModel, payloads: Seq<TypeModel>) -> Result<
    TypeModel,
    TransformError,
> {
    match wrapper {
        TypeModel::Path(path) => match inject_path(path, as_arguments(payloads)) {
            Ok(p) => Ok(TypeModel::Path(p)),
            Err(e) => Err(e),
        },
        _ => Err(TransformError::WrapperMustBePath),
    }
}

/// The payloads for a declared type: the declared type, then the failure type
/// if there is one.
pub open spec fn payloads_model(declared: TypeModel, error: Option<TypeModel>) -> Seq<TypeModel> {
    match error {
        Some(e) => seq![declared, e],
        None => seq![declared],
    }
}

/// The type that the rewritten function returns: the wrapper around the
/// declared type and the failure type.
pub open spec fn wrapped_model(args: ArgsModel, declared: TypeModel) -> Result<
    TypeModel,
    TransformError,
> {
    match args.wrapper {
        Some(w) => inject_model(w, payloads_model(declared, args.error)),
        None => Err(TransformError::WrapperMustBePath),
    }
}

/// The declared type of a return type: the unit type where none is written.
pub open spec fn declared_model(ret: ReturnTypeModel) -> TypeModel {
    match ret {
        ReturnTypeModel::Default => unit_model(),
        ReturnTypeModel::Type(t) => t,
    }
}

/// The rewritten return type.
pub open spec fn ret_model(args: ArgsModel, ret: ReturnTypeModel) -> Result<
    ReturnTypeModel,
    TransformError,
> {
    match wrapped_model(args, declared_model(ret)) {
        Ok(t) => Ok(ReturnTypeModel::Type(t)),
        Err(e) => Err(e),
    }
}

/// The arguments after the return type has been rewritten: the wrapper is
/// used up, and so is the failure type where the wrapper was a path.
pub open spec fn used_model(args: ArgsModel) -> ArgsModel {
    ArgsModel {
        error: if args.wrapper matches Some(TypeModel::Path(_)) {
            None
        } else {
            args.error
        },
        wrapper: None,
    }
}

/// A wrapper whose last segment has no arguments takes the payloads as the
/// arguments of that segment, in their order: the declared type, then the
/// failure type if there is one.
pub proof fn lemma_inject_into_open_wrapper(path: PathModel, payloads: Seq<TypeModel>)
    requires
        path.segments.len() > 0,
        path.segments.last().arguments is Empty,
    ensures
        inject_model(TypeModel::Path(path), payloads) == Ok::<TypeModel, TransformError>(
            TypeModel::Path(
                PathModel {
                    segments: path.segments.drop_last().push(
                        SegmentModel {
                            ident: path.segments.last().ident,
                            arguments: ArgumentsModel::AngleBracketed(as_arguments(payloads)),
                        },
                    ),
                    ..path
                },
            ),
        ),
        as_arguments(payloads).len() == payloads.len(),
        forall|i: int|
            0 <= i < payloads.len() ==> as_arguments(payloads)[i] == ArgumentModel::Type(
                payloads[i],
            ),
{
}

/// Under a wrapper with a failure type, the arguments are the declared type
/// and the failure type, in that order; under a wrapper without one, the
/// declared type alone.
pub proof fn lemma_payloads_in_order(declared: TypeModel, error: TypeModel)
    ensures
        as_arguments(payloads_model(declared, Some(error))) == seq![
            ArgumentModel::Type(declared),
            ArgumentModel::Type(error),
        ],
        as_arguments(payloads_model(declared, None)) == seq![ArgumentModel::Type(declared)],
{
}

/// A path segment without arguments.
fn segment(ident: &str) -> (r: PathSegment)
    ensures
        r@ == open_segment(ident@),
{
    PathSegment { ident: String::from_str(ident), arguments: PathArguments::Empty }
}

/// The unit type `()`.
pub fn unit() -> (r: TypeRef)
    ensures
        r@ == unit_model(),
{
    TypeRef::Unit
}

/// The standard outcome type of two payloads, `::core::result::Result`.
pub fn result() -> (r: TypeRef)
    ensures
        r@ == result_model(),
{
    let mut segments: Vec<PathSegment> = Vec::new();
    segments.push(segment("core"));
    segments.push(segment("result"));
    segments.push(segment("Result"));
    let path = TypePath { qself: None, leading_colon: true, segments };
    proof {
        lemma_path_view(path);
        assert(segments_view(path.segments@) =~= result_model()->Path_0.segments);
    }
    TypeRef::Path(path)
}

/// The failure type by convention, `Error`.
pub fn default_error() -> (r: TypeRef)
    ensures
        r@ == default_error_model(),
{
    let mut segments: Vec<PathSegment> = Vec::new();
    segments.push(segment("Error"));
    let path = TypePath { qself: None, leading_colon: false, segments };
    proof {
        lemma_path_view(path);
    }
    TypeRef::Path(path)
}

/// Puts `types` between angle brackets into the innermost open segment of `path`.
pub fn innermost_path_arguments(path: TypePath, types: Vec<GenericArgument>) -> (r: Result<
    TypePath,
    TransformError,
>)
    ensures
        match inject_path(path@, arguments_view(types@)) {
            Ok(p) => r is Ok && r->Ok_0@ == p,
            Err(e) => r == Err::<TypePath, TransformError>(e),
        },
    decreases path,
{
    proof {
        lemma_path_view(path);
    }
    let ghost whole = path;
    let TypePath { qself, leading_colon, mut segments } = path;
    match segments.pop() {
        None => Err(TransformError::WrapperMustBePath),
        Some(last) => {
            proof {
                lemma_arguments_view(last.arguments);
            }
            let PathSegment { ident, arguments } = last;
            match arguments {
                PathArguments::Empty => {
                    segments.push(
                        PathSegment { ident, arguments: PathArguments::AngleBracketed(types) },
                    );
                    let res = TypePath { qself, leading_colon, segments };
                    proof {
                        lemma_path_view(res);
                        lemma_arguments_view(res.segments@.last().arguments);
                        assert(res@.segments =~= inject_path(
                            whole@,
                            arguments_view(types@),
                        )->Ok_0.segments);
                    }
                    Ok(res)
                },
                PathArguments::AngleBracketed(args) => {
                    let mut args = args;
                    let ghost args_before = args@;
                    match args.pop() {
                        Some(GenericArgument::Type(TypeRef::Path(inner))) => {
                            match innermost_path_arguments(inner, types) {
                                Ok(filled) => {
                                    args.push(GenericArgument::Type(TypeRef::Path(filled)));
                                    segments.push(
                                        PathSegment {
                                            ident,
                                            arguments: PathArguments::AngleBracketed(args),
                                        },
                                    );
                                    let res = TypePath { qself, leading_colon, segments };
                                    proof {
                                        lemma_path_view(res);
                                        lemma_arguments_view(res.segments@.last().arguments);
                                        let want = inject_path(
                                            whole@,
                                            arguments_view(types@),
                                        )->Ok_0;
                                        assert(arguments_view(args@) =~= arguments_view(
                                            args_before,
                                        ).drop_last().push(
                                            ArgumentModel::Type(TypeModel::Path(filled@)),
                                        ));
                                        assert(res@.segments =~= want.segments);
                                    }
                                    Ok(res)
                                },
                                Err(e) => Err(e),
                            }
                        },
                        _ => Err(TransformError::StrangeWrapper),
                    }
                },
                PathArguments::Parenthesized(_) => Err(TransformError::WrapperMustBePath),
            }
        },
    }
}

/// Puts the payload types into the innermost open segment of the wrapper.
///
/// With a wrapper without arguments the result is the wrapper with the
/// payloads as its arguments, in their order.
pub fn inject(wrapper: TypeRef, payloads: Vec<TypeRef>) -> (r: Result<TypeRef, TransformError>)
    ensures
        match inject_model(wrapper@, crate::types::types_view(payloads@)) {
            Ok(t) => r is Ok && r->Ok_0@ == t,
            Err(e) => r == Err::<TypeRef, TransformError>(e),
        },
{
    match wrapper {
        TypeRef::Path(path) => {
            let mut payloads = payloads;
            let ghost given = payloads@;
            let mut types: Vec<GenericArgument> = Vec::new();
            while payloads.len() > 0
                invariant
                    types@.len() <= given.len(),
                    payloads@ == given.skip(types@.len() as int),
                    forall|j: int|
                        0 <= j < types@.len() ==> types@[j] == GenericArgument::Type(given[j]),
                decreases payloads.len(),
            {
                let t = payloads.remove(0);
                types.push(GenericArgument::Type(t));
            }
            assert(arguments_view(types@) =~= as_arguments(crate::types::types_view(given)));
            match innermost_path_arguments(path, types) {
                Ok(p) => Ok(TypeRef::Path(p)),
                Err(e) => Err(e),
            }
        },
        _ => Err(TransformError::WrapperMustBePath),
    }
}

impl Args {
    /// Resolves the arguments of the annotation, with the failure type that
    /// stands in where none is named.
    pub fn resolve(input: Vec<ArgToken>, default_error: TypeRef) -> (r: Result<
        Args,
        TransformError,
    >)
        ensures
            match resolve_model(tokens_view(input@), default_error@) {
                Ok(a) => r is Ok && r->Ok_0@ == a,
                Err(e) => r == Err::<Args, TransformError>(e),
            },
    {
        let mut input = input;
        let n = input.len();
        if n == 0 {
            Ok(Args { error: Some(default_error), wrapper: Some(result()) })
        } else if n == 1 {
            match input.pop() {
                Some(ArgToken::Type(t)) => {
                    Ok(
                        Args {
                            error: Some(Self::or_default(t, default_error)),
                            wrapper: Some(result()),
                        },
                    )
                },
                _ => Err(TransformError::MalformedArguments),
            }
        } else if n == 2 {
            let second = input.pop();
            let first = input.pop();
            match (first, second) {
                (Some(ArgToken::As), Some(ArgToken::Type(w))) => Ok(
                    Args { error: None, wrapper: Some(w) },
                ),
                _ => Err(TransformError::MalformedArguments),
            }
        } else if n == 3 {
            let third = input.pop();
            let second = input.pop();
            let first = input.pop();
            match (first, second, third) {
                (Some(ArgToken::Type(t)), Some(ArgToken::As), Some(ArgToken::Type(w))) => Ok(
                    Args { error: Some(Self::or_default(t, default_error)), wrapper: Some(w) },
                ),
                _ => Err(TransformError::MalformedArguments),
            }
        } else {
            Err(TransformError::MalformedArguments)
        }
    }

    /// Resolves the arguments of the annotation. Where no failure type is
    /// named, it is `Error`.
    pub fn parse(input: Vec<ArgToken>) -> (r: Result<Args, TransformError>)
        ensures
            match resolve_model(tokens_view(input@), default_error_model()) {
                Ok(a) => r is Ok && r->Ok_0@ == a,
                Err(e) => r == Err::<Args, TransformError>(e),
            },
    {
        Self::resolve(input, default_error())
    }

    fn or_default(t: TypeRef, default_error: TypeRef) -> (r: TypeRef)
        ensures
            r@ == failure_or_default(t@, default_error@),
    {
        match t {
            TypeRef::Infer => default_error,
            other => other,
        }
    }

    /// Whether the wrapper takes a failure type beside the declared type.
    pub fn has_error(&self) -> (r: bool)
        ensures
            r == (self@.error is Some),
    {
        self.error.is_some()
    }

    /// Rewrites a declared return type into the wrapper around it. The
    /// wrapper is used up by this.
    pub fn ret(&mut self, ret: ReturnType) -> (r: Result<ReturnType, TransformError>)
        ensures
            match ret_model(old(self)@, ret@) {
                Ok(t) => r is Ok && r->Ok_0@ == t,
                Err(e) => r == Err::<ReturnType, TransformError>(e),
            },
            final(self)@ == used_model(old(self)@),
    {
        let declared = match ret {
            ReturnType::Default => unit(),
            ReturnType::Type(ty) => ty,
        };
        match self.inject_to_wrapper(declared) {
            Ok(t) => Ok(ReturnType::Type(t)),
            Err(e) => Err(e),
        }
    }

    /// Wraps a declared type: the wrapper around it and the failure type.
    fn inject_to_wrapper(&mut self, ret: TypeRef) -> (r: Result<TypeRef, TransformError>)
        ensures
            match wrapped_model(old(self)@, ret@) {
                Ok(t) => r is Ok && r->Ok_0@ == t,
                Err(e) => r == Err::<TypeRef, TransformError>(e),
            },
            final(self)@ == used_model(old(self)@),
    {
        match self.wrapper.take() {
            Some(TypeRef::Path(wrapper)) => {
                let mut types: Vec<TypeRef> = Vec::new();
                types.push(ret);
                match self.error.take() {
                    Some(error) => {
                        types.push(error);
                    },
                    None => {},
                }
                assert(crate::types::types_view(types@) =~= payloads_model(
                    ret@,
                    old(self)@.error,
                ));
                inject(TypeRef::Path(wrapper), types)
            },
            _ => Err(TransformError::WrapperMustBePath),
        }
    }
}

} // verus!
