//! What a derived failure type hands out as its cause and as its backtrace.
//!
//! For each variant of the type, the field marked `#[error(source)]` or
//! `#[error(cause)]` is its cause, and the field of type `Backtrace` is its
//! backtrace. A variant has at most one of each.

use crate::types::{lemma_path_view, TypeModel, TypeRef};
use vstd::prelude::*;

verus! {

/// An argument of an attribute list.
#[derive(Debug, PartialEq, Eq)]
pub enum NestedMeta {
    /// A structured argument, by its path. `source` is one; so is
    /// `source = "x"`, by the same path.
    Meta(String),
    /// A literal.
    Lit(String),
}

/// The structured form of an attribute.
#[derive(Debug, PartialEq, Eq)]
pub enum Meta {
    /// A path alone, as in `#[test]`.
    Path(String),
    /// A path and a list, as in `#[error(source)]`.
    List(String, Vec<NestedMeta>),
    /// A path and a value, as in `#[doc = "text"]`.
    NameValue(String, String),
}

/// An attribute of a field.
#[derive(Debug, PartialEq, Eq)]
pub struct Attribute {
    /// Its structured form; `None` where it has none.
    pub meta: Option<Meta>,
}

/// A field of a variant.
#[derive(Debug, PartialEq, Eq)]
pub struct BindingInfo {
    pub attrs: Vec<Attribute>,
    pub ty: TypeRef,
}

/// A variant of an enum, or the body of a struct.
#[derive(Debug, PartialEq, Eq)]
pub struct VariantInfo {
    pub bindings: Vec<BindingInfo>,
}

/// A struct or an enum, by its variants.
#[derive(Debug, PartialEq, Eq)]
pub struct Structure {
    pub variants: Vec<VariantInfo>,
}

/// Why nothing is derived for a type.
#[derive(Clone, Copy, Debug, PartialEq, Eq)]
pub enum DeriveError {
    /// A variant marks more than one cause.
    MultipleSources,
    /// A variant has more than one field of type `Backtrace`.
    MultipleBacktraces,
}

/// What is derived for a type.
#[derive(Debug, PartialEq, Eq)]
pub struct ErrorImpl {
    /// For each variant, the field that is its cause, if it has one.
    pub source: Vec<Option<usize>>,
    /// For each variant, the field that is its backtrace, if it has one. The
    /// type hands out no backtrace at all where no variant has such a field.
    pub backtrace: Option<Vec<Option<usize>>>,
}

impl DeriveError {
    /// The text that says what is wrong.
    pub open spec fn message_text(self) -> Seq<char> {
        match self {
            DeriveError::MultipleSources => "cannot have multiple source attributes"@,
            DeriveError::MultipleBacktraces => "cannot have multiple backtraces"@,
        }
    }

    /// The text that says what is wrong.
    pub fn message(&self) -> (r: String)
        ensures
            r@ == self.message_text(),
    {
        match self {
            DeriveError::MultipleSources => String::from_str(
                "cannot have multiple source attributes",
            ),
            DeriveError::MultipleBacktraces => String::from_str("cannot have multiple backtraces"),
        }
    }
}

/// Whether an argument of an attribute list marks a cause.
pub open spec fn marks_source(n: NestedMeta) -> bool {
    n matches NestedMeta::Meta(path) && (path@ == "cause"@ || path@ == "source"@)
}

/// How many of the first `n` arguments mark a cause.
pub open spec fn marks_in_list(nested: Seq<NestedMeta>, n: nat) -> nat
    decreases n,
{
    if n == 0 || n > nested.len() {
        0
    } else {
        marks_in_list(nested, (n - 1) as nat) + if marks_source(nested[n - 1]) {
            1nat
        } else {
            0nat
        }
    }
}

/// How many causes an attribute marks: those in the list of `#[error(..)]`.
pub open spec fn marks_in_attr(a: Attribute) -> nat {
    match a.meta {
        Some(Meta::List(path, nested)) => if path@ == "error"@ {
            marks_in_list(nested@, nested@.len())
        } else {
            0
        },
        _ => 0,
    }
}

/// How many causes the first `n` attributes mark.
pub open spec fn marks_in_attrs(attrs: Seq<Attribute>, n: nat) -> nat
    decreases n,
{
    if n == 0 || n > attrs.len() {
        0
    } else {
        marks_in_attrs(attrs, (n - 1) as nat) + marks_in_attr(attrs[n - 1])
    }
}

/// How many times a field is marked as a cause.
pub open spec fn source_attrs(b: BindingInfo) -> nat {
    marks_in_attrs(b.attrs@, b.attrs@.len())
}

/// Whether a type is a path whose last segment is `Backtrace`.
pub open spec fn names_backtrace(ty: TypeModel) -> bool {
    ty matches TypeModel::Path(path) && path.segments.len() > 0 && path.segments.last().ident
        == "Backtrace"@
}

/// The cause among the first `n` fields: the one field that is marked, once.
pub open spec fn source_among(bindings: Seq<BindingInfo>, n: nat) -> Result<
    Option<usize>,
    DeriveError,
>
    decreases n,
{
    if n == 0 || n > bindings.len() {
        Ok(None)
    } else {
        match source_among(bindings, (n - 1) as nat) {
            Err(e) => Err(e),
            Ok(found) => {
                let marks = source_attrs(bindings[n - 1]);
                if marks == 0 {
                    Ok(found)
                } else if marks == 1 && found is None {
                    Ok(Some((n - 1) as usize))
                } else {
                    Err(DeriveError::MultipleSources)
                }
            },
        }
    }
}

/// The backtrace among the first `n` fields: the one field of that type.
pub open spec fn backtrace_among(bindings: Seq<BindingInfo>, n: nat) -> Result<
    Option<usize>,
    DeriveError,
>
    decreases n,
{
    if n == 0 || n > bindings.len() {
        Ok(None)
    } else {
        match backtrace_among(bindings, (n - 1) as nat) {
            Err(e) => Err(e),
            Ok(found) => {
                if !names_backtrace(bindings[n - 1].ty@) {
                    Ok(found)
                } else if found is None {
                    Ok(Some((n - 1) as usize))
                } else {
                    Err(DeriveError::MultipleBacktraces)
                }
            },
        }
    }
}

/// The cause of a variant.
pub open spec fn source_of(v: VariantInfo) -> Result<Option<usize>, DeriveError> {
    source_among(v.bindings@, v.bindings@.len())
}

/// The backtrace of a variant.
pub open spec fn backtrace_of(v: VariantInfo) -> Result<Option<usize>, DeriveError> {
    backtrace_among(v.bindings@, v.bindings@.len())
}

/// Whether one of the first `n` variants marks more than one cause.
pub open spec fn sources_clash(variants: Seq<VariantInfo>, n: nat) -> bool {
    exists|i: int| 0 <= i < n && i < variants.len() && source_of(#[trigger] variants[i]) is Err
}

/// Whether one of the first `n` variants has more than one backtrace.
pub open spec fn backtraces_clash(variants: Seq<VariantInfo>, n: nat) -> bool {
    exists|i: int| 0 <= i < n && i < variants.len() && backtrace_of(#[trigger] variants[i]) is Err
}

/// Whether one of the variants has a backtrace.
pub open spec fn uses_backtrace(variants: Seq<VariantInfo>, n: nat) -> bool {
    exists|i: int|
        0 <= i < n && i < variants.len() && has_backtrace(#[trigger] variants[i])
}

/// Whether a variant has a backtrace.
pub open spec fn has_backtrace(v: VariantInfo) -> bool {
    backtrace_of(v) is Ok && backtrace_of(v)->Ok_0 is Some
}

/// What is derived for `s` is `plan`: for each variant its cause and its
/// backtrace, and no backtraces at all where no variant has one.
pub open spec fn derives(s: Structure, plan: ErrorImpl) -> bool {
    let n = s.variants@.len();
    &&& plan.source@.len() == n
    &&& forall|i: int| 0 <= i < n ==> source_of(s.variants@[i]) == Ok::<
        Option<usize>,
        DeriveError,
    >(#[trigger] plan.source@[i])
    &&& plan.backtrace is Some <==> uses_backtrace(s.variants@, n)
    &&& plan.backtrace matches Some(b) ==> {
        &&& b@.len() == n
        &&& forall|i: int| 0 <= i < n ==> backtrace_of(s.variants@[i]) == Ok::<
            Option<usize>,
            DeriveError,
        >(#[trigger] b@[i])
    }
}

/// The cause among the fields is the one field that is marked, where the
/// others are not marked and that one is marked once. None is marked where
/// there is no cause. The fields are refused where one is marked twice, or
/// two are marked.
pub proof fn lemma_source_is_the_marked_field(bindings: Seq<BindingInfo>, n: nat)
    requires
        n <= bindings.len(),
        n <= usize::MAX,
    ensures
        match source_among(bindings, n) {
            Ok(None) => forall|i: int| 0 <= i < n ==> source_attrs(#[trigger] bindings[i]) == 0,
            Ok(Some(k)) => {
                &&& k < n
                &&& source_attrs(bindings[k as int]) == 1
                &&& forall|i: int|
                    0 <= i < n && i != k ==> source_attrs(#[trigger] bindings[i]) == 0
            },
            Err(e) => {
                &&& e == DeriveError::MultipleSources
                &&& exists|i: int, j: int|
                    0 <= i <= j < n && source_attrs(#[trigger] bindings[i]) >= 1 && source_attrs(
                        #[trigger] bindings[j],
                    ) >= 1 && (i != j || source_attrs(bindings[i]) >= 2)
            },
        },
    decreases n,
{
    if n > 0 {
        lemma_source_is_the_marked_field(bindings, (n - 1) as nat);
    }
}

/// The backtrace among the fields is the one field of type `Backtrace`.
/// The fields are refused where two are of that type.
pub proof fn lemma_backtrace_is_the_field_of_that_type(bindings: Seq<BindingInfo>, n: nat)
    requires
        n <= bindings.len(),
        n <= usize::MAX,
    ensures
        match backtrace_among(bindings, n) {
            Ok(None) => forall|i: int|
                0 <= i < n ==> !names_backtrace((#[trigger] bindings[i]).ty@),
            Ok(Some(k)) => {
                &&& k < n
                &&& names_backtrace(bindings[k as int].ty@)
                &&& forall|i: int|
                    0 <= i < n && i != k ==> !names_backtrace((#[trigger] bindings[i]).ty@)
            },
            Err(e) => {
                &&& e == DeriveError::MultipleBacktraces
                &&& exists|i: int, j: int|
                    0 <= i < j < n && names_backtrace((#[trigger] bindings[i]).ty@)
                        && names_backtrace((#[trigger] bindings[j]).ty@)
            },
        },
    decreases n,
{
    if n > 0 {
        lemma_backtrace_is_the_field_of_that_type(bindings, (n - 1) as nat);
    }
}

/// Whether two texts are the same.
fn same_text(a: &String, b: &str) -> (r: bool)
    ensures
        r == (a@ == b@),
{
    let other = String::from_str(b);
    *a == other
}

/// How many of the arguments of one attribute mark a cause, up to two.
fn count_in_attr(a: &Attribute) -> (r: usize)
    ensures
        r <= 2,
        r < 2 ==> r == marks_in_attr(*a),
        r == 2 ==> marks_in_attr(*a) >= 2,
{
    match &a.meta {
        Some(Meta::List(path, nested)) => {
            if same_text(path, "error") {
                let mut count: usize = 0;
                let mut i: usize = 0;
                while i < nested.len()
                    invariant
                        i <= nested.len(),
                        count <= 2,
                        count < 2 ==> count == marks_in_list(nested@, i as nat),
                        count == 2 ==> marks_in_list(nested@, i as nat) >= 2,
                    decreases nested.len() - i,
                {
                    let marked = match &nested[i] {
                        NestedMeta::Meta(p) => same_text(p, "cause") || same_text(p, "source"),
                        NestedMeta::Lit(_) => false,
                    };
                    if marked && count < 2 {
                        count += 1;
                    }
                    i += 1;
                }
                count
            } else {
                0
            }
        },
        _ => 0,
    }
}

/// Whether a field is marked as the cause. A field that is marked more than
/// once is refused.
pub fn is_source(b: &BindingInfo) -> (r: Result<bool, DeriveError>)
    ensures
        source_attrs(*b) == 0 ==> r == Ok::<bool, DeriveError>(false),
        source_attrs(*b) == 1 ==> r == Ok::<bool, DeriveError>(true),
        source_attrs(*b) >= 2 ==> r == Err::<bool, DeriveError>(DeriveError::MultipleSources),
{
    let mut source_attrs: usize = 0;
    let mut i: usize = 0;
    while i < b.attrs.len()
        invariant
            i <= b.attrs.len(),
            source_attrs <= 2,
            source_attrs < 2 ==> source_attrs == marks_in_attrs(b.attrs@, i as nat),
            source_attrs == 2 ==> marks_in_attrs(b.attrs@, i as nat) >= 2,
        decreases b.attrs.len() - i,
    {
        let found = count_in_attr(&b.attrs[i]);
        if found + source_attrs >= 2 {
            source_attrs = 2;
        } else {
            source_attrs = source_attrs + found;
        }
        i += 1;
    }
    if source_attrs == 0 {
        Ok(false)
    } else if source_attrs == 1 {
        Ok(true)
    } else {
        Err(DeriveError::MultipleSources)
    }
}

/// Whether a field has the type `Backtrace`, by the last segment of its path.
pub fn is_backtrace(b: &BindingInfo) -> (r: bool)
    ensures
        r == names_backtrace(b.ty@),
{
    match &b.ty {
        TypeRef::Path(path) => {
            proof {
                lemma_path_view(*path);
            }
            let n = path.segments.len();
            if n > 0 {
                same_text(&path.segments[n - 1].ident, "Backtrace")
            } else {
                false
            }
        },
        _ => false,
    }
}

/// The field of a variant that is its cause.
pub fn variant_source(v: &VariantInfo) -> (r: Result<Option<usize>, DeriveError>)
    ensures
        r == source_of(*v),
{
    let mut found: Option<usize> = None;
    let mut i: usize = 0;
    while i < v.bindings.len()
        invariant
            i <= v.bindings.len(),
            source_among(v.bindings@, i as nat) == Ok::<Option<usize>, DeriveError>(found),
        decreases v.bindings.len() - i,
    {
        match is_source(&v.bindings[i]) {
            Ok(false) => {},
            Ok(true) => {
                if found.is_some() {
                    proof {
                        lemma_source_clash_stays(v.bindings@, (i + 1) as nat, v.bindings@.len());
                    }
                    return Err(DeriveError::MultipleSources);
                }
                found = Some(i);
            },
            Err(e) => {
                proof {
                    lemma_source_clash_stays(v.bindings@, (i + 1) as nat, v.bindings@.len());
                }
                return Err(e);
            },
        }
        i += 1;
    }
    Ok(found)
}

/// The field of a variant that is its backtrace.
pub fn variant_backtrace(v: &VariantInfo) -> (r: Result<Option<usize>, DeriveError>)
    ensures
        r == backtrace_of(*v),
{
    let mut found: Option<usize> = None;
    let mut i: usize = 0;
    while i < v.bindings.len()
        invariant
            i <= v.bindings.len(),
            backtrace_among(v.bindings@, i as nat) == Ok::<Option<usize>, DeriveError>(found),
        decreases v.bindings.len() - i,
    {
        if is_backtrace(&v.bindings[i]) {
            if found.is_some() {
                proof {
                    lemma_backtrace_clash_stays(v.bindings@, (i + 1) as nat, v.bindings@.len());
                }
                return Err(DeriveError::MultipleBacktraces);
            }
            found = Some(i);
        }
        i += 1;
    }
    Ok(found)
}

/// Once the first fields mark more than one cause, so do all the fields.
proof fn lemma_source_clash_stays(bindings: Seq<BindingInfo>, n: nat, m: nat)
    requires
        n <= m <= bindings.len(),
        source_among(bindings, n) is Err,
    ensures
        source_among(bindings, m) == Err::<Option<usize>, DeriveError>(
            DeriveError::MultipleSources,
        ),
    decreases m,
{
    if n < m {
        lemma_source_clash_stays(bindings, n, (m - 1) as nat);
    } else {
        lemma_source_error(bindings, n);
    }
}

/// The only refusal of a cause is that of more than one.
proof fn lemma_source_error(bindings: Seq<BindingInfo>, n: nat)
    ensures
        source_among(bindings, n) matches Err(e) ==> e == DeriveError::MultipleSources,
    decreases n,
{
    if n > 0 && n <= bindings.len() {
        lemma_source_error(bindings, (n - 1) as nat);
    }
}

/// Once the first fields hold more than one backtrace, so do all the fields.
proof fn lemma_backtrace_clash_stays(bindings: Seq<BindingInfo>, n: nat, m: nat)
    requires
        n <= m <= bindings.len(),
        backtrace_among(bindings, n) is Err,
    ensures
        backtrace_among(bindings, m) == Err::<Option<usize>, DeriveError>(
            DeriveError::MultipleBacktraces,
        ),
    decreases m,
{
    if n < m {
        lemma_backtrace_clash_stays(bindings, n, (m - 1) as nat);
    } else {
        lemma_backtrace_error(bindings, n);
    }
}

/// The only refusal of a backtrace is that of more than one.
proof fn lemma_backtrace_error(bindings: Seq<BindingInfo>, n: nat)
    ensures
        backtrace_among(bindings, n) matches Err(e) ==> e == DeriveError::MultipleBacktraces,
    decreases n,
{
    if n > 0 && n <= bindings.len() {
        lemma_backtrace_error(bindings, (n - 1) as nat);
    }
}

/// Derives the cause and the backtrace of each variant of a type. The
/// causes are looked at first: a type that marks two causes in one variant is
/// refused for that, whatever its backtraces.
pub fn entry(s: &Structure) -> (r: Result<ErrorImpl, DeriveError>)
    ensures
        sources_clash(s.variants@, s.variants@.len()) ==> r == Err::<ErrorImpl, DeriveError>(
            DeriveError::MultipleSources,
        ),
        !sources_clash(s.variants@, s.variants@.len()) && backtraces_clash(
            s.variants@,
            s.variants@.len(),
        ) ==> r == Err::<ErrorImpl, DeriveError>(DeriveError::MultipleBacktraces),
        !sources_clash(s.variants@, s.variants@.len()) && !backtraces_clash(
            s.variants@,
            s.variants@.len(),
        ) ==> r is Ok && derives(*s, r->Ok_0),
{
    let n = s.variants.len();
    let mut source: Vec<Option<usize>> = Vec::new();
    let mut i: usize = 0;
    while i < n
        invariant
            n == s.variants@.len(),
            i <= n,
            source@.len() == i,
            forall|j: int|
                0 <= j < i ==> source_of(s.variants@[j]) == Ok::<Option<usize>, DeriveError>(
                    #[trigger] source@[j],
                ),
        decreases n - i,
    {
        match variant_source(&s.variants[i]) {
            Ok(found) => {
                source.push(found);
            },
            Err(e) => {
                proof {
                    let refused = s.variants@[i as int].bindings@;
                    lemma_source_error(refused, refused.len());
                }
                return Err(e);
            },
        }
        i += 1;
    }
    assert(!sources_clash(s.variants@, n as nat)) by {
        assert forall|j: int| 0 <= j < n implies !(source_of(s.variants@[j]) is Err) by {
            let _ = source@[j];
        }
    }
    let mut used_backtrace = false;
    let mut backtrace: Vec<Option<usize>> = Vec::new();
    let mut i: usize = 0;
    while i < n
        invariant
            n == s.variants@.len(),
            i <= n,
            backtrace@.len() == i,
            forall|j: int|
                0 <= j < i ==> backtrace_of(s.variants@[j]) == Ok::<Option<usize>, DeriveError>(
                    #[trigger] backtrace@[j],
                ),
            used_backtrace <==> exists|j: int| 0 <= j < i && (#[trigger] backtrace@[j]) is Some,
            !sources_clash(s.variants@, n as nat),
        decreases n - i,
    {
        match variant_backtrace(&s.variants[i]) {
            Ok(found) => {
                let ghost before = backtrace@;
                if found.is_some() {
                    used_backtrace = true;
                }
                backtrace.push(found);
                proof {
                    if found is Some {
                        assert(backtrace@[i as int] is Some);
                    } else if used_backtrace {
                        let k = choose|k: int| 0 <= k < i && (#[trigger] before[k]) is Some;
                        assert(backtrace@[k] is Some);
                    } else {
                        assert forall|j: int| 0 <= j < i + 1 implies !((
                        #[trigger] backtrace@[j]) is Some) by {
                            if j < i {
                                assert(!(before[j] is Some));
                            }
                        }
                    }
                }
            },
            Err(e) => {
                proof {
                    let refused = s.variants@[i as int].bindings@;
                    lemma_backtrace_error(refused, refused.len());
                }
                return Err(e);
            },
        }
        i += 1;
    }
    proof {
        assert(!backtraces_clash(s.variants@, n as nat)) by {
            assert forall|j: int| 0 <= j < n implies !(backtrace_of(s.variants@[j]) is Err) by {
                let _ = backtrace@[j];
            }
        }
        if used_backtrace {
            let k = choose|k: int| 0 <= k < n && (#[trigger] backtrace@[k]) is Some;
            assert(has_backtrace(s.variants@[k]));
        } else {
            assert forall|j: int| 0 <= j < n implies !has_backtrace(
                #[trigger] s.variants@[j],
            ) by {
                assert(!(backtrace@[j] is Some));
            }
        }
    }
    Ok(
        ErrorImpl {
            source,
            backtrace: if used_backtrace {
                Some(backtrace)
            } else {
                None
            },
        },
    )
}

} // verus!
