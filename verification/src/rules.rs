//! The assignability relation, as a function on the views of types.
//!
//! `assign_spec(l, r, span, strict)` is what assigning a source `r` to a
//! target `l` at `span` gives: `Ok`, or the tree of failures. The rules are
//! tried in a fixed order and the first that applies decides; they match on
//! the canonical shapes of both sides, and quote the types as they were
//! given.

use vstd::prelude::*;
use swc_common::Span;
use crate::canon::lemma_normalized_decreases;
use crate::errors::ErrorView;
use crate::keys::{ident_equal, key_equal};
use crate::shape::erased_signatures;
use crate::ty::{
    ClassMemberView, EnumMemberView, EnumView, KeyView, KeywordKind, LitView, TypeElementView,
    TypeView,
};

verus! {

/// The generic failure of a rule.
pub open spec fn failed(l: TypeView, r: TypeView, span: Span) -> ErrorView {
    ErrorView::AssignFailed { span, left: l, right: r, cause: Seq::empty() }
}

/// The signal that a pair lies outside of what is decided.
pub open spec fn undecided(l: TypeView, r: TypeView, span: Span) -> ErrorView {
    ErrorView::Unimplemented { span, left: l, right: r }
}

/// The keyword `kind` at `span`.
pub open spec fn keyword_at(span: Span, kind: KeywordKind) -> TypeView {
    TypeView::Keyword { span, kind }
}

/// The name of the interface that boxes a primitive.
pub open spec fn wrapper_name(kind: KeywordKind) -> Option<Seq<char>> {
    match kind {
        KeywordKind::Boolean => Some("Boolean"@),
        KeywordKind::Str => Some("String"@),
        KeywordKind::Number => Some("Number"@),
        _ => None,
    }
}

/// The target is a primitive and the source is the interface that boxes it.
pub open spec fn wrapper_to_primitive(ln: TypeView, rw: TypeView) -> bool {
    ln matches TypeView::Keyword { kind, .. } && rw matches TypeView::Interface { name, .. }
        && wrapper_name(kind) == Some(name)
}

/// The target is the interface that boxes the primitive that the source is.
pub open spec fn primitive_to_wrapper(ln: TypeView, rw: TypeView) -> bool {
    ln matches TypeView::Interface { name, .. } && rw matches TypeView::Keyword { kind, .. }
        && wrapper_name(kind) == Some(name)
}

impl TypeView {
    /// `any` or `unknown`.
    pub open spec fn is_top(self) -> bool {
        self matches TypeView::Keyword { kind, .. } && (kind == KeywordKind::Any || kind
            == KeywordKind::Unknown)
    }

    /// `undefined` or `null`.
    pub open spec fn is_nullish(self) -> bool {
        self matches TypeView::Keyword { kind, .. } && (kind == KeywordKind::Undefined || kind
            == KeywordKind::Null)
    }

    /// What `object` accepts besides itself.
    pub open spec fn is_object_like(self) -> bool {
        match self {
            TypeView::Keyword { kind, .. } => kind == KeywordKind::Number || kind
                == KeywordKind::Str,
            TypeView::Function { .. } => true,
            TypeView::Constructor { .. } => true,
            TypeView::Enum(_) => true,
            TypeView::Class(_) => true,
            TypeView::TypeLit { .. } => true,
            _ => false,
        }
    }

    /// How much of a source the rules keyed on the source can still take
    /// apart: the measure by which they terminate.
    pub open spec fn source_weight(self) -> nat
        decreases self,
    {
        match self {
            TypeView::Union { types, .. } => 2 + source_weights(types),
            TypeView::Param(p) => match p.constraint {
                Some(c) => 1 + (*c).source_weight(),
                None => 0,
            },
            TypeView::Enum(_) => 1,
            _ => 0,
        }
    }
}

/// The weights of a sequence of sources, added up.
pub open spec fn source_weights(ts: Seq<TypeView>) -> nat
    decreases ts,
{
    if ts.len() == 0 {
        0
    } else {
        ts.last().source_weight() + source_weights(ts.drop_last())
    }
}

/// A source weighs no more than the sequence it stands in.
pub proof fn lemma_source_weights(ts: Seq<TypeView>, i: int)
    requires
        0 <= i < ts.len(),
    ensures
        ts[i].source_weight() <= source_weights(ts),
    decreases ts.len(),
{
    if i < ts.len() - 1 {
        lemma_source_weights(ts.drop_last(), i);
    }
}

/// A canonical shape weighs no more than the type it is the shape of.
pub proof fn lemma_normalized_weight(t: TypeView)
    ensures
        t.normalized().source_weight() <= t.source_weight(),
    decreases t,
{
    match t {
        TypeView::Union { types, .. } => {
            if types.len() == 1 {
                lemma_normalized_weight(types[0]);
                lemma_source_weights(types, 0);
            }
        },
        _ => {},
    }
}

/// Some member of the enum is initialized with a string.
pub open spec fn has_str_init(ms: Seq<EnumMemberView>) -> bool {
    exists|i: int| 0 <= i < ms.len() && (#[trigger] ms[i]).init matches Some(LitView::Str { .. })
}

/// Some member of the enum is initialized with a number.
pub open spec fn has_num_init(ms: Seq<EnumMemberView>) -> bool {
    exists|i: int|
        0 <= i < ms.len() && (#[trigger] ms[i]).init matches Some(LitView::Number { .. })
}

/// The primitive that an enum's values belong to: `number` unless some
/// member is a string, `string` where only strings are given, and none
/// where strings and numbers are mixed.
pub open spec fn enum_primitive(e: EnumView) -> Option<KeywordKind> {
    if !has_str_init(e.members) {
        Some(KeywordKind::Number)
    } else if !has_num_init(e.members) {
        Some(KeywordKind::Str)
    } else {
        None
    }
}

/// Two literals hold the same value: the same kind and the same decoded
/// value, wherever they stand and however a string was escaped.
pub open spec fn lit_value_equal(a: LitView, b: LitView) -> bool {
    match (a, b) {
        (LitView::Str { value: v1, .. }, LitView::Str { value: v2, .. }) => v1 == v2,
        (LitView::Number { text: t1, .. }, LitView::Number { text: t2, .. }) => t1 == t2,
        (LitView::Bool { value: v1, .. }, LitView::Bool { value: v2, .. }) => v1 == v2,
        _ => false,
    }
}

/// What the keyword `kind` accepts: itself, and the literals of the
/// primitive that it is.
pub open spec fn keyword_accepts(kind: KeywordKind, rn: TypeView) -> bool {
    match rn {
        TypeView::Keyword { kind: rk, .. } => rk == kind,
        TypeView::Lit(l) => l.primitive() == kind,
        _ => false,
    }
}

/// The first property of `rms`, from `from` on, whose key equals `key`.
pub open spec fn find_property(rms: Seq<TypeElementView>, key: KeyView, from: int) -> Option<int>
    decreases rms.len() - from,
{
    if from < 0 || from >= rms.len() {
        None
    } else if rms[from] matches TypeElementView::Property { key: rk, .. } && key_equal(key, rk) {
        Some(from)
    } else {
        find_property(rms, key, from + 1)
    }
}

/// The first method of `rms`, from `from` on, whose key equals `key`.
pub open spec fn find_method(rms: Seq<TypeElementView>, key: KeyView, from: int) -> Option<int>
    decreases rms.len() - from,
{
    if from < 0 || from >= rms.len() {
        None
    } else if rms[from] matches TypeElementView::Method { key: rk, .. } && key_equal(key, rk) {
        Some(from)
    } else {
        find_method(rms, key, from + 1)
    }
}

/// Some member of `rms` equals `m` up to names and locations.
pub open spec fn has_equal_element(rms: Seq<TypeElementView>, m: TypeElementView) -> bool {
    exists|j: int| 0 <= j < rms.len() && (#[trigger] rms[j]).erased(true) == m.erased(true)
}

/// The class has a constructor.
pub open spec fn has_constructor(body: Seq<ClassMemberView>) -> bool {
    exists|j: int| 0 <= j < body.len() && #[trigger] body[j] is Constructor
}

/// The class has a property whose key is the identifier `key`.
pub open spec fn has_class_property(body: Seq<ClassMemberView>, key: KeyView) -> bool {
    exists|j: int|
        0 <= j < body.len() && (#[trigger] body[j] matches ClassMemberView::Property {
            key: rk,
            ..
        } && ident_equal(key, rk))
}

/// The declared type of a property, or `any` at `span` where it has none.
pub open spec fn declared_or_any(ty: Option<Box<TypeView>>, span: Span) -> TypeView {
    match ty {
        Some(t) => *t,
        None => keyword_at(span, KeywordKind::Any),
    }
}

/// What assigning `r` to a property without a declared type gives: the
/// property takes anything but an unresolved reference.
pub open spec fn untyped_target_spec(r: TypeView, span: Span) -> Result<(), ErrorView> {
    if r.normalized() is Ref {
        Err(undecided(keyword_at(span, KeywordKind::Any), r, span))
    } else {
        Ok(())
    }
}

/// What became of one required member.
pub enum MemberOutcome {
    /// The source has it, and what it has is assignable.
    Matched,
    /// The source does not have it.
    Missing,
    /// The source has it, and the query ends with this failure.
    Failed(ErrorView),
}

/// The query's outcome as seen from the outside: every failure has an
/// `AssignFailed` at its root.
pub open spec fn assign_spec(l: TypeView, r: TypeView, span: Span, strict: bool) -> Result<
    (),
    ErrorView,
> {
    match assign_inner_spec(l, r, span, strict) {
        Ok(()) => Ok(()),
        Err(e) => if e is AssignFailed {
            Err(e)
        } else {
            Err(ErrorView::AssignFailed { span, left: l, right: r, cause: seq![e] })
        },
    }
}

/// The rules, in their order. An unresolved reference on either side is
/// signalled before anything is decided of it. Then come the wrapper rule,
/// which sees a literal source as its primitive; the tops as target; and
/// `null` and `undefined` as source where they are not checked strictly.
/// What is left goes to the rules keyed on the source, and from them to
/// the rules keyed on the target.
pub open spec fn assign_inner_spec(l: TypeView, r: TypeView, span: Span, strict: bool) -> Result<
    (),
    ErrorView,
>
    decreases l, r.source_weight(), 3nat,
{
    let ln = l.normalized();
    let rn = r.normalized();
    let rw = r.generalized().normalized();
    if ln is Ref || rn is Ref {
        Err(undecided(l, r, span))
    } else if wrapper_to_primitive(ln, rw) {
        Err(ErrorView::AssignedWrapperToPrimitive { span })
    } else if primitive_to_wrapper(ln, rw) {
        Ok(())
    } else if ln.is_top() {
        Ok(())
    } else if rn.is_nullish() && !strict {
        Ok(())
    } else {
        source_spec(l, r, span, strict)
    }
}

/// The rules keyed on the source, for a pair that no earlier rule took.
pub open spec fn source_spec(l: TypeView, r: TypeView, span: Span, strict: bool) -> Result<
    (),
    ErrorView,
>
    decreases l, r.source_weight(), 2nat,
{
    let ln = l.normalized();
    let rn = r.normalized();
    proof {
        lemma_normalized_weight(r);
    }
    match rn {
        TypeView::Union { types, .. } => {
            let errors = source_union_errors(l, r, types, types.len(), span, strict);
            if errors.len() == 0 {
                Ok(())
            } else {
                Err(ErrorView::UnionError { span, errors })
            }
        },
        TypeView::Keyword { kind: KeywordKind::Any, .. } => Ok(()),
        TypeView::Keyword { kind: KeywordKind::Unknown, .. } => {
            if l.is_keyword(KeywordKind::Any) || l.is_keyword(KeywordKind::Undefined) {
                Ok(())
            } else {
                Err(failed(l, r, span))
            }
        },
        TypeView::Param(p) => {
            if ln matches TypeView::Param(lp) && lp.name == p.name {
                Ok(())
            } else {
                match p.constraint {
                    Some(c) => assign_inner_spec(l, *c, span, strict),
                    None => {
                        if ln matches TypeView::TypeLit { members, .. } && members.len() == 0 {
                            Ok(())
                        } else {
                            Err(failed(l, r, span))
                        }
                    },
                }
            }
        },
        TypeView::Enum(e) => match enum_primitive(e) {
            Some(kind) => assign_inner_spec(l, keyword_at(span, kind), span, strict),
            None => Err(undecided(l, r, span)),
        },
        _ => target_spec(l, r, span, strict),
    }
}

/// The failures of assigning the first `n` alternatives of a source union
/// to `l`, in order.
pub open spec fn source_union_errors(
    l: TypeView,
    r: TypeView,
    alts: Seq<TypeView>,
    n: nat,
    span: Span,
    strict: bool,
) -> Seq<ErrorView>
    decreases l, 1 + source_weights(alts), n,
{
    if n == 0 || n > alts.len() {
        Seq::empty()
    } else {
        let before = source_union_errors(l, r, alts, (n - 1) as nat, span, strict);
        proof {
            lemma_source_weights(alts, n - 1);
        }
        match assign_inner_spec(l, alts[n - 1], span, strict) {
            Ok(()) => before,
            Err(e) => before.push(e),
        }
    }
}

/// The rules keyed on the target, for a source that no earlier rule took.
pub open spec fn target_spec(l: TypeView, r: TypeView, span: Span, strict: bool) -> Result<
    (),
    ErrorView,
>
    decreases l, r.source_weight(), 1nat,
{
    let ln = l.normalized();
    proof {
        lemma_normalized_decreases(l);
    }
    match ln {
        TypeView::Param(p) => match p.constraint {
            Some(c) => assign_inner_spec(*c, r, span, strict),
            None => fallback_spec(l, r, span),
        },
        TypeView::Array { .. } => array_target_spec(l, r, span, strict),
        TypeView::Union { types, .. } => {
            if target_union_accepts(types, r, types.len(), span, strict) {
                Ok(())
            } else {
                Err(
                    ErrorView::UnionError {
                        span,
                        errors: target_union_errors(types, r, types.len(), span, strict),
                    },
                )
            }
        },
        TypeView::Intersection { types, .. } => match intersection_spec(
            types,
            r,
            0,
            span,
            strict,
        ) {
            Ok(()) => Ok(()),
            Err(e) => Err(ErrorView::IntersectionError { span, error: Box::new(e) }),
        },
        TypeView::Interface { body, .. } => members_spec(l, r, body, span, strict),
        TypeView::TypeLit { members, .. } => members_spec(l, r, members, span, strict),
        TypeView::Function { .. } => function_target_spec(l, r, span, strict),
        TypeView::Tuple { .. } => tuple_target_spec(l, r, span, strict),
        _ => plain_target_spec(l, r, span),
    }
}

/// An array as target: it takes an array of assignable elements and a
/// tuple whose every element is assignable, and wraps what their elements
/// fail with.
pub open spec fn array_target_spec(l: TypeView, r: TypeView, span: Span, strict: bool) -> Result<
    (),
    ErrorView,
>
    decreases l, r.source_weight(), 0nat,
{
    proof {
        lemma_normalized_decreases(l);
    }
    match l.normalized() {
        TypeView::Array { elem, .. } => match r.normalized() {
            TypeView::Array { elem: r_elem, .. } => match assign_inner_spec(
                *elem,
                *r_elem,
                span,
                strict,
            ) {
                Ok(()) => Ok(()),
                Err(e) => Err(
                    ErrorView::AssignFailed { span, left: l, right: r, cause: seq![e] },
                ),
            },
            TypeView::Tuple { elems, .. } => match array_from_tuple_spec(
                *elem,
                elems,
                0,
                span,
                strict,
            ) {
                Ok(()) => Ok(()),
                Err(e) => Err(
                    ErrorView::AssignFailed { span, left: l, right: r, cause: seq![e] },
                ),
            },
            _ => Err(failed(l, r, span)),
        },
        _ => Err(failed(l, r, span)),
    }
}

/// A function without type parameters as target: it takes a function
/// without type parameters whose result is assignable to its own.
pub open spec fn function_target_spec(
    l: TypeView,
    r: TypeView,
    span: Span,
    strict: bool,
) -> Result<(), ErrorView>
    decreases l, r.source_weight(), 0nat,
{
    proof {
        lemma_normalized_decreases(l);
    }
    match (l.normalized(), r.normalized()) {
        (TypeView::Function { sig, .. }, TypeView::Function { sig: r_sig, .. }) => {
            if sig.type_params is None && r_sig.type_params is None {
                assign_inner_spec(*sig.ret, *r_sig.ret, span, strict)
            } else {
                fallback_spec(l, r, span)
            }
        },
        _ => fallback_spec(l, r, span),
    }
}

/// A tuple as target: it takes a tuple that is no longer than itself,
/// position by position.
pub open spec fn tuple_target_spec(l: TypeView, r: TypeView, span: Span, strict: bool) -> Result<
    (),
    ErrorView,
>
    decreases l, r.source_weight(), 0nat,
{
    proof {
        lemma_normalized_decreases(l);
    }
    match (l.normalized(), r.normalized()) {
        (TypeView::Tuple { elems, .. }, TypeView::Tuple { elems: r_elems, .. }) => {
            if elems.len() < r_elems.len() {
                Err(failed(l, r, span))
            } else {
                tuple_spec(elems, r_elems, 0, span, strict)
            }
        },
        _ => fallback_spec(l, r, span),
    }
}

/// The targets whose rule looks at the two canonical shapes and no
/// further.
pub open spec fn plain_target_spec(l: TypeView, r: TypeView, span: Span) -> Result<(), ErrorView> {
    let rn = r.normalized();
    match l.normalized() {
        TypeView::Keyword { kind, .. } => {
            if kind == KeywordKind::Object && rn.is_object_like() {
                Ok(())
            } else if keyword_accepts(kind, rn) {
                Ok(())
            } else {
                Err(failed(l, r, span))
            }
        },
        TypeView::Enum(e) => {
            if rn matches TypeView::EnumVariant { enum_name, .. } && enum_name == e.id {
                Ok(())
            } else {
                Err(failed(l, r, span))
            }
        },
        TypeView::EnumVariant { enum_name, name, .. } => {
            if rn matches TypeView::EnumVariant { enum_name: r_enum, name: r_name, .. } && r_enum
                == enum_name && r_name == name {
                Ok(())
            } else {
                Err(failed(l, r, span))
            }
        },
        TypeView::This { .. } => Err(ErrorView::CannotAssignToThis { span }),
        TypeView::Lit(ll) => {
            if rn matches TypeView::Lit(rl) && lit_value_equal(ll, rl) {
                Ok(())
            } else {
                Err(failed(l, r, span))
            }
        },
        TypeView::Predicate { .. } => {
            if keyword_accepts(KeywordKind::Boolean, rn) {
                Ok(())
            } else {
                Err(failed(l, r, span))
            }
        },
        TypeView::Class(lc) => {
            let same = match rn {
                TypeView::Class(rc) => lc.erased(false) == rc.erased(false),
                TypeView::ClassInstance { cls, .. } => lc.erased(false) == cls.erased(false),
                _ => false,
            };
            if same {
                Ok(())
            } else {
                Err(failed(l, r, span))
            }
        },
        _ => fallback_spec(l, r, span),
    }
}

/// Where no rule applies: types that are equal up to names and locations
/// are assignable, and any other pair is not decided.
pub open spec fn fallback_spec(l: TypeView, r: TypeView, span: Span) -> Result<(), ErrorView> {
    if l.same_ignoring_names_and_spans(r) {
        Ok(())
    } else {
        Err(undecided(l, r, span))
    }
}

/// Every element of a source tuple, from `i` on, is assignable to the
/// element type of a target array; else the first failure.
pub open spec fn array_from_tuple_spec(
    elem: TypeView,
    r_elems: Seq<TypeView>,
    i: int,
    span: Span,
    strict: bool,
) -> Result<(), ErrorView>
    decreases elem, 1 + source_weights(r_elems), r_elems.len() - i,
{
    if i < 0 || i >= r_elems.len() {
        Ok(())
    } else {
        proof {
            lemma_source_weights(r_elems, i);
        }
        match assign_inner_spec(elem, r_elems[i], span, strict) {
            Ok(()) => array_from_tuple_spec(elem, r_elems, i + 1, span, strict),
            Err(e) => Err(e),
        }
    }
}

/// Some one of the first `n` alternatives of a target union accepts `r`.
pub open spec fn target_union_accepts(
    alts: Seq<TypeView>,
    r: TypeView,
    n: nat,
    span: Span,
    strict: bool,
) -> bool
    decreases alts, 0nat, n,
{
    if n == 0 || n > alts.len() {
        false
    } else {
        target_union_accepts(alts, r, (n - 1) as nat, span, strict) || assign_inner_spec(
            alts[n - 1],
            r,
            span,
            strict,
        ) is Ok
    }
}

/// The failures of the first `n` alternatives of a target union, in order.
pub open spec fn target_union_errors(
    alts: Seq<TypeView>,
    r: TypeView,
    n: nat,
    span: Span,
    strict: bool,
) -> Seq<ErrorView>
    decreases alts, 0nat, n,
{
    if n == 0 || n > alts.len() {
        Seq::empty()
    } else {
        let before = target_union_errors(alts, r, (n - 1) as nat, span, strict);
        match assign_inner_spec(alts[n - 1], r, span, strict) {
            Ok(()) => before,
            Err(e) => before.push(e),
        }
    }
}

/// Every part of a target intersection, from `i` on, accepts `r`; else the
/// first failure.
pub open spec fn intersection_spec(
    parts: Seq<TypeView>,
    r: TypeView,
    i: int,
    span: Span,
    strict: bool,
) -> Result<(), ErrorView>
    decreases parts, 0nat, parts.len() - i,
{
    if i < 0 || i >= parts.len() {
        Ok(())
    } else {
        match assign_inner_spec(parts[i], r, span, strict) {
            Ok(()) => intersection_spec(parts, r, i + 1, span, strict),
            Err(e) => Err(e),
        }
    }
}

/// Tuple to tuple, from position `i` on: each element of the source goes
/// to the element of the target at its position, and an `undefined` goes
/// anywhere; else the first failure.
pub open spec fn tuple_spec(
    elems: Seq<TypeView>,
    r_elems: Seq<TypeView>,
    i: int,
    span: Span,
    strict: bool,
) -> Result<(), ErrorView>
    decreases elems, 0nat, r_elems.len() - i,
{
    if i < 0 || i >= r_elems.len() || i >= elems.len() {
        Ok(())
    } else {
        match assign_inner_spec(elems[i], r_elems[i], span, strict) {
            Ok(()) => tuple_spec(elems, r_elems, i + 1, span, strict),
            Err(e) => if r_elems[i].is_keyword(KeywordKind::Undefined) {
                tuple_spec(elems, r_elems, i + 1, span, strict)
            } else {
                Err(e)
            },
        }
    }
}

/// Structural member assignment: what the members `ms` of the target `l`
/// demand of the source `r`.
pub open spec fn members_spec(
    l: TypeView,
    r: TypeView,
    ms: Seq<TypeElementView>,
    span: Span,
    strict: bool,
) -> Result<(), ErrorView>
    decreases ms, 0nat, ms.len() + 2,
{
    match r.normalized() {
        TypeView::TypeLit { members: rms, .. } => object_members_spec(l, r, ms, rms, span, strict),
        TypeView::Interface { body: rms, .. } => object_members_spec(l, r, ms, rms, span, strict),
        TypeView::Class(c) => {
            if exists|i: int| 0 <= i < ms.len() && !(#[trigger] ms[i] is Constructor) {
                Err(undecided(l, r, span))
            } else if ms.len() > 0 && !has_constructor(c.body) {
                Err(
                    ErrorView::Errors {
                        span,
                        errors: Seq::new(
                            ms.len(),
                            |i: int|
                                ErrorView::ConstructorRequired {
                                    span,
                                    lhs: l.span(),
                                    rhs: r.span(),
                                },
                        ),
                    },
                )
            } else {
                Ok(())
            }
        },
        TypeView::ClassInstance { cls, .. } => {
            if forall|i: int|
                0 <= i < ms.len() ==> (#[trigger] ms[i] matches TypeElementView::Property {
                    key,
                    ..
                } && has_class_property(cls.body, key)) {
                Ok(())
            } else {
                Err(undecided(l, r, span))
            }
        },
        TypeView::Tuple { .. } | TypeView::Array { .. } | TypeView::Lit(_) => {
            if ms.len() > 0 {
                Err(failed(l, r, span))
            } else {
                Ok(())
            }
        },
        _ => Ok(()),
    }
}

/// Member assignment from an object-like source with the members `rms`.
pub open spec fn object_members_spec(
    l: TypeView,
    r: TypeView,
    ms: Seq<TypeElementView>,
    rms: Seq<TypeElementView>,
    span: Span,
    strict: bool,
) -> Result<(), ErrorView>
    decreases ms, 0nat, ms.len() + 1,
{
    match missing_members(l, r, ms, rms, ms.len(), span, strict) {
        Err(e) => Err(e),
        Ok(missing) => if missing.len() == 0 {
            Ok(())
        } else {
            Err(
                ErrorView::Errors {
                    span,
                    errors: seq![ErrorView::MissingFields { span, fields: missing }],
                },
            )
        },
    }
}

/// The members among the first `n` of `ms` that the source lacks, in
/// order; or the failure that ended the query before all `n` were seen.
pub open spec fn missing_members(
    l: TypeView,
    r: TypeView,
    ms: Seq<TypeElementView>,
    rms: Seq<TypeElementView>,
    n: nat,
    span: Span,
    strict: bool,
) -> Result<Seq<TypeElementView>, ErrorView>
    decreases ms, 0nat, n,
{
    if n == 0 || n > ms.len() {
        Ok(Seq::empty())
    } else {
        match missing_members(l, r, ms, rms, (n - 1) as nat, span, strict) {
            Err(e) => Err(e),
            Ok(missing) => match member_outcome(l, r, ms[n - 1], rms, span, strict) {
                MemberOutcome::Matched => Ok(missing),
                MemberOutcome::Missing => Ok(missing.push(ms[n - 1])),
                MemberOutcome::Failed(e) => Err(e),
            },
        }
    }
}

/// What becomes of the required member `m` against the members `rms` of
/// the source.
pub open spec fn member_outcome(
    l: TypeView,
    r: TypeView,
    m: TypeElementView,
    rms: Seq<TypeElementView>,
    span: Span,
    strict: bool,
) -> MemberOutcome
    decreases m, 0nat, 0nat,
{
    match m {
        TypeElementView::Property { key, ty, .. } => match find_property(rms, key, 0) {
            None => MemberOutcome::Missing,
            Some(j) => {
                let r_ty = declared_or_any(rms[j]->Property_ty, span);
                let res = match ty {
                    Some(l_ty) => assign_inner_spec(*l_ty, r_ty, span, strict),
                    None => untyped_target_spec(r_ty, span),
                };
                match res {
                    Ok(()) => MemberOutcome::Matched,
                    Err(e) => MemberOutcome::Failed(e),
                }
            },
        },
        TypeElementView::Method { key, signatures, .. } => match find_method(rms, key, 0) {
            None => MemberOutcome::Missing,
            Some(j) => {
                if erased_signatures(signatures, true) == erased_signatures(
                    rms[j]->Method_signatures,
                    true,
                ) {
                    MemberOutcome::Matched
                } else {
                    MemberOutcome::Failed(undecided(l, r, span))
                }
            },
        },
        TypeElementView::Index { .. } => MemberOutcome::Matched,
        _ => if has_equal_element(rms, m) {
            MemberOutcome::Matched
        } else {
            MemberOutcome::Missing
        },
    }
}

/// Once a member has ended the query, the members after it change nothing.
pub proof fn lemma_missing_members_stops(
    l: TypeView,
    r: TypeView,
    ms: Seq<TypeElementView>,
    rms: Seq<TypeElementView>,
    k: nat,
    n: nat,
    span: Span,
    strict: bool,
)
    requires
        missing_members(l, r, ms, rms, k, span, strict) is Err,
        k <= n <= ms.len(),
    ensures
        missing_members(l, r, ms, rms, n, span, strict) == missing_members(
            l,
            r,
            ms,
            rms,
            k,
            span,
            strict,
        ),
    decreases n - k,
{
    if k < n {
        lemma_missing_members_stops(l, r, ms, rms, k, (n - 1) as nat, span, strict);
    }
}

/// A search finds the first property, from `from` on, whose key equals
/// the key sought.
pub proof fn lemma_find_property(rms: Seq<TypeElementView>, key: KeyView, from: int)
    requires
        0 <= from,
    ensures
        match find_property(rms, key, from) {
            Some(j) => from <= j < rms.len() && (rms[j] matches TypeElementView::Property {
                key: rk,
                ..
            } && key_equal(key, rk)) && forall|k: int|
                from <= k < j ==> !(#[trigger] rms[k] matches TypeElementView::Property {
                    key: rk,
                    ..
                } && key_equal(key, rk)),
            None => forall|k: int|
                from <= k < rms.len() ==> !(#[trigger] rms[k] matches TypeElementView::Property {
                    key: rk,
                    ..
                } && key_equal(key, rk)),
        },
    decreases rms.len() - from,
{
    if from < rms.len() {
        lemma_find_property(rms, key, from + 1);
    }
}

/// A search finds the first method, from `from` on, whose key equals the
/// key sought.
pub proof fn lemma_find_method(rms: Seq<TypeElementView>, key: KeyView, from: int)
    requires
        0 <= from,
    ensures
        match find_method(rms, key, from) {
            Some(j) => from <= j < rms.len() && (rms[j] matches TypeElementView::Method {
                key: rk,
                ..
            } && key_equal(key, rk)) && forall|k: int|
                from <= k < j ==> !(#[trigger] rms[k] matches TypeElementView::Method {
                    key: rk,
                    ..
                } && key_equal(key, rk)),
            None => forall|k: int|
                from <= k < rms.len() ==> !(#[trigger] rms[k] matches TypeElementView::Method {
                    key: rk,
                    ..
                } && key_equal(key, rk)),
        },
    decreases rms.len() - from,
{
    if from < rms.len() {
        lemma_find_method(rms, key, from + 1);
    }
}

} // verus!
