//! Type expressions, as far as the rewriting looks into them.
//!
//! A wrapper type is a path such as `Result` or `MyTry<X, Result>`. Only paths,
//! the unit type and the placeholder `_` are told apart; every other type is
//! carried as its source text.

use vstd::prelude::*;

verus! {

/// A type expression.
#[derive(Debug, PartialEq, Eq)]
pub enum TypeRef {
    /// A path type such as `::core::result::Result` or `Option<T>`.
    Path(TypePath),
    /// The unit type `()`.
    Unit,
    /// The placeholder `_`.
    Infer,
    /// Any other type, as source text.
    Verbatim(String),
}

/// A path type.
#[derive(Debug, PartialEq, Eq)]
pub struct TypePath {
    /// The text of a qualified self type (`<T as Trait>`), if the path has one.
    pub qself: Option<String>,
    /// Whether the path starts with `::`.
    pub leading_colon: bool,
    /// The segments of the path, first to last.
    pub segments: Vec<PathSegment>,
}

/// One segment of a path, with its generic arguments.
#[derive(Debug, PartialEq, Eq)]
pub struct PathSegment {
    pub ident: String,
    pub arguments: PathArguments,
}

/// The generic arguments of a path segment.
#[derive(Debug, PartialEq, Eq)]
pub enum PathArguments {
    /// No arguments: the segment is open.
    Empty,
    /// `<A, B>`.
    AngleBracketed(Vec<GenericArgument>),
    /// `(A, B) -> C`, as source text.
    Parenthesized(String),
}

/// One argument between angle brackets.
#[derive(Debug, PartialEq, Eq)]
pub enum GenericArgument {
    /// A type.
    Type(TypeRef),
    /// A lifetime, a constant, a binding or a constraint, as source text.
    Verbatim(String),
}

/// The mathematical value of a [`TypeRef`].
pub ghost enum TypeModel {
    Path(PathModel),
    Unit,
    Infer,
    Verbatim(Seq<char>),
}

/// The mathematical value of a [`TypePath`].
pub ghost struct PathModel {
    pub qself: Option<Seq<char>>,
    pub leading_colon: bool,
    pub segments: Seq<SegmentModel>,
}

/// The mathematical value of a [`PathSegment`].
pub ghost struct SegmentModel {
    pub ident: Seq<char>,
    pub arguments: ArgumentsModel,
}

/// The mathematical value of a [`PathArguments`].
pub ghost enum ArgumentsModel {
    Empty,
    AngleBracketed(Seq<ArgumentModel>),
    Parenthesized(Seq<char>),
}

/// The mathematical value of a [`GenericArgument`].
pub ghost enum ArgumentModel {
    Type(TypeModel),
    Verbatim(Seq<char>),
}

/// The views of the first `n` segments of a path.
pub open spec fn segments_view_upto(v: Vec<PathSegment>, n: nat) -> Seq<SegmentModel>
    decreases v, n,
{
    if n == 0 || n > v.len() {
        Seq::empty()
    } else {
        segments_view_upto(v, (n - 1) as nat).push(v[n - 1]@)
    }
}

/// The views of the first `n` generic arguments of a segment.
pub open spec fn arguments_view_upto(v: Vec<GenericArgument>, n: nat) -> Seq<ArgumentModel>
    decreases v, n,
{
    if n == 0 || n > v.len() {
        Seq::empty()
    } else {
        arguments_view_upto(v, (n - 1) as nat).push(v[n - 1]@)
    }
}

impl View for TypeRef {
    type V = TypeModel;

    open spec fn view(&self) -> TypeModel
        decreases self,
    {
        match self {
            TypeRef::Path(p) => TypeModel::Path(p@),
            TypeRef::Unit => TypeModel::Unit,
            TypeRef::Infer => TypeModel::Infer,
            TypeRef::Verbatim(s) => TypeModel::Verbatim(s@),
        }
    }
}

impl View for TypePath {
    type V = PathModel;

    open spec fn view(&self) -> PathModel
        decreases self,
    {
        PathModel {
            qself: match self.qself {
                Some(q) => Some(q@),
                None => None,
            },
            leading_colon: self.leading_colon,
            segments: segments_view_upto(self.segments, self.segments.len() as nat),
        }
    }
}

impl View for PathSegment {
    type V = SegmentModel;

    open spec fn view(&self) -> SegmentModel
        decreases self,
    {
        SegmentModel { ident: self.ident@, arguments: self.arguments@ }
    }
}

impl View for PathArguments {
    type V = ArgumentsModel;

    open spec fn view(&self) -> ArgumentsModel
        decreases self,
    {
        match self {
            PathArguments::Empty => ArgumentsModel::Empty,
            PathArguments::AngleBracketed(args) => ArgumentsModel::AngleBracketed(
                arguments_view_upto(*args, args.len() as nat),
            ),
            PathArguments::Parenthesized(s) => ArgumentsModel::Parenthesized(s@),
        }
    }
}

impl View for GenericArgument {
    type V = ArgumentModel;

    open spec fn view(&self) -> ArgumentModel
        decreases self,
    {
        match self {
            GenericArgument::Type(t) => ArgumentModel::Type(t@),
            GenericArgument::Verbatim(s) => ArgumentModel::Verbatim(s@),
        }
    }
}

/// The view of a sequence of types, element by element.
pub open spec fn types_view(v: Seq<TypeRef>) -> Seq<TypeModel> {
    Seq::new(v.len(), |i: int| v[i]@)
}

/// The view of a sequence of generic arguments, element by element.
pub open spec fn arguments_view(v: Seq<GenericArgument>) -> Seq<ArgumentModel> {
    Seq::new(v.len(), |i: int| v[i]@)
}

/// The view of a sequence of path segments, element by element.
pub open spec fn segments_view(v: Seq<PathSegment>) -> Seq<SegmentModel> {
    Seq::new(v.len(), |i: int| v[i]@)
}

proof fn lemma_segments_view_upto(v: Vec<PathSegment>, n: nat)
    requires
        n <= v.len(),
    ensures
        segments_view_upto(v, n).len() == n,
        forall|i: int| 0 <= i < n ==> segments_view_upto(v, n)[i] == v[i]@,
    decreases n,
{
    if n > 0 {
        lemma_segments_view_upto(v, (n - 1) as nat);
        assert(segments_view_upto(v, n) == segments_view_upto(v, (n - 1) as nat).push(
            v[n - 1]@,
        ));
    }
}

proof fn lemma_arguments_view_upto(v: Vec<GenericArgument>, n: nat)
    requires
        n <= v.len(),
    ensures
        arguments_view_upto(v, n).len() == n,
        forall|i: int| 0 <= i < n ==> arguments_view_upto(v, n)[i] == v[i]@,
    decreases n,
{
    if n > 0 {
        lemma_arguments_view_upto(v, (n - 1) as nat);
        assert(arguments_view_upto(v, n) == arguments_view_upto(v, (n - 1) as nat).push(
            v[n - 1]@,
        ));
    }
}

/// The view of a path, one level down.
pub broadcast proof fn lemma_path_view(p: TypePath)
    ensures
        #![trigger p@]
        p@ == (PathModel {
            qself: match p.qself {
                Some(q) => Some(q@),
                None => None,
            },
            leading_colon: p.leading_colon,
            segments: segments_view(p.segments@),
        }),
{
    lemma_segments_view_upto(p.segments, p.segments.len() as nat);
    assert(p@.segments =~= segments_view(p.segments@));
}

/// The view of the arguments of a segment, one level down.
pub broadcast proof fn lemma_arguments_view(a: PathArguments)
    ensures
        #![trigger a@]
        a is Empty ==> a@ == ArgumentsModel::Empty,
        a matches PathArguments::AngleBracketed(args) ==> a@ == ArgumentsModel::AngleBracketed(
            arguments_view(args@),
        ),
        a matches PathArguments::Parenthesized(s) ==> a@ == ArgumentsModel::Parenthesized(s@),
{
    match a {
        PathArguments::AngleBracketed(args) => {
            lemma_arguments_view_upto(args, args.len() as nat);
            assert(a@->AngleBracketed_0 =~= arguments_view(args@));
        },
        _ => {},
    }
}

/// A copy of an optional text.
pub fn clone_text(s: &Option<String>) -> (res: Option<String>)
    ensures
        res == *s,
{
    match s {
        Some(t) => Some(t.clone()),
        None => None,
    }
}

impl Clone for TypeRef {
    fn clone(&self) -> (res: Self)
        ensures
            res@ == self@,
        decreases self,
    {
        match self {
            TypeRef::Path(p) => TypeRef::Path(p.clone()),
            TypeRef::Unit => TypeRef::Unit,
            TypeRef::Infer => TypeRef::Infer,
            TypeRef::Verbatim(s) => TypeRef::Verbatim(s.clone()),
        }
    }
}

impl Clone for TypePath {
    fn clone(&self) -> (res: Self)
        ensures
            res@ == self@,
        decreases self,
    {
        let mut out: Vec<PathSegment> = Vec::new();
        let mut i: usize = 0;
        while i < self.segments.len()
            invariant
                i <= self.segments.len(),
                out.len() == i,
                forall|j: int| 0 <= j < i ==> out[j]@ == self.segments[j]@,
            decreases self.segments.len() - i,
        {
            out.push(self.segments[i].clone());
            i += 1;
        }
        let res = TypePath {
            qself: clone_text(&self.qself),
            leading_colon: self.leading_colon,
            segments: out,
        };
        proof {
            lemma_path_view(res);
            lemma_path_view(*self);
            assert(segments_view(res.segments@) =~= segments_view(self.segments@));
        }
        res
    }
}

impl Clone for PathSegment {
    fn clone(&self) -> (res: Self)
        ensures
            res@ == self@,
        decreases self,
    {
        PathSegment { ident: self.ident.clone(), arguments: self.arguments.clone() }
    }
}

impl Clone for PathArguments {
    fn clone(&self) -> (res: Self)
        ensures
            res@ == self@,
        decreases self,
    {
        match self {
            PathArguments::Empty => PathArguments::Empty,
            PathArguments::AngleBracketed(args) => {
                let mut out: Vec<GenericArgument> = Vec::new();
                let mut i: usize = 0;
                while i < args.len()
                    invariant
                        i <= args.len(),
                        out.len() == i,
                        forall|j: int| 0 <= j < i ==> out[j]@ == args[j]@,
                        self is AngleBracketed,
                        self->AngleBracketed_0 == *args,
                    decreases args.len() - i,
                {
                    out.push(args[i].clone());
                    i += 1;
                }
                let res = PathArguments::AngleBracketed(out);
                proof {
                    lemma_arguments_view(res);
                    lemma_arguments_view(*self);
                    assert(arguments_view(out@) =~= arguments_view(args@));
                }
                res
            },
            PathArguments::Parenthesized(s) => PathArguments::Parenthesized(s.clone()),
        }
    }
}

impl Clone for GenericArgument {
    fn clone(&self) -> (res: Self)
        ensures
            res@ == self@,
        decreases self,
    {
        match self {
            GenericArgument::Type(t) => GenericArgument::Type(t.clone()),
            GenericArgument::Verbatim(s) => GenericArgument::Verbatim(s.clone()),
        }
    }
}

impl TypeRef {
    /// Whether this is the unit type `()`.
    pub fn is_unit(&self) -> (r: bool)
        ensures
            r == (self@ is Unit),
    {
        match self {
            TypeRef::Unit => true,
            _ => false,
        }
    }
}

} // verus!
