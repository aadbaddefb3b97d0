//! What holds of the assignability relation, whatever the types.
//!
//! Each law is stated of `assign_spec`, which is what `Analyzer::assign`
//! returns, and is proved from the rules. Where a law speaks of "every
//! type", it speaks of the types that the analyzer is meant for: their
//! canonical shape is no unresolved reference, and a union has at least two
//! alternatives.

use vstd::prelude::*;
use swc_common::Span;
use crate::errors::ErrorView;
use crate::rules::{
    array_from_tuple_spec, array_target_spec, assign_inner_spec, assign_spec, enum_primitive,
    fallback_spec, function_target_spec, intersection_spec, keyword_at, plain_target_spec,
    primitive_to_wrapper, source_spec, source_union_errors, target_spec, target_union_accepts,
    tuple_spec, tuple_target_spec, wrapper_name, wrapper_to_primitive,
};
use crate::ty::{EnumView, KeywordKind, Type, TypeView};

verus! {

/// A query succeeds exactly when the rules succeed: wrapping a failure
/// never turns it into a success.
pub proof fn lemma_outcome(l: TypeView, r: TypeView, span: Span, strict: bool)
    ensures
        assign_spec(l, r, span, strict) is Ok <==> assign_inner_spec(l, r, span, strict) is Ok,
        assign_spec(l, r, span, strict) matches Err(e) ==> e is AssignFailed,
{
}

/// A pair that none of the first rules takes goes on to the rules keyed
/// on the source.
pub proof fn lemma_reaches_source_rules(l: TypeView, r: TypeView, span: Span, strict: bool)
    requires
        !(l.normalized() is Ref),
        !(r.normalized() is Ref),
        !wrapper_to_primitive(l.normalized(), r.generalized().normalized()),
        !primitive_to_wrapper(l.normalized(), r.generalized().normalized()),
        !l.normalized().is_top(),
        !(r.normalized().is_nullish() && !strict),
    ensures
        assign_inner_spec(l, r, span, strict) == source_spec(l, r, span, strict),
{
}

/// A source that is neither a union, a type parameter, an enum, `any` nor
/// `unknown` goes on to the rules keyed on the target.
pub proof fn lemma_reaches_target_rules(l: TypeView, r: TypeView, span: Span, strict: bool)
    requires
        is_passed_on_source(r),
        !(r.normalized() is Enum),
        !r.is_keyword(KeywordKind::Any),
    ensures
        source_spec(l, r, span, strict) == target_spec(l, r, span, strict),
{
}

/// A source union leaves no failure exactly when every one of its
/// alternatives is assignable.
pub proof fn lemma_source_union(
    l: TypeView,
    r: TypeView,
    alts: Seq<TypeView>,
    n: nat,
    span: Span,
    strict: bool,
)
    requires
        n <= alts.len(),
    ensures
        source_union_errors(l, r, alts, n, span, strict).len() == 0 <==> forall|i: int|
            0 <= i < n ==> assign_inner_spec(l, #[trigger] alts[i], span, strict) is Ok,
    decreases n,
{
    if n > 0 {
        lemma_source_union(l, r, alts, (n - 1) as nat, span, strict);
        if source_union_errors(l, r, alts, n, span, strict).len() == 0 {
            assert forall|i: int| 0 <= i < n implies assign_inner_spec(
                l,
                #[trigger] alts[i],
                span,
                strict,
            ) is Ok by {
                if i == n - 1 {
                }
            }
        }
    }
}

/// A target union accepts a source exactly when one of its alternatives
/// does.
pub proof fn lemma_target_union(
    alts: Seq<TypeView>,
    r: TypeView,
    n: nat,
    span: Span,
    strict: bool,
)
    requires
        n <= alts.len(),
    ensures
        target_union_accepts(alts, r, n, span, strict) <==> exists|i: int|
            0 <= i < n && assign_inner_spec(#[trigger] alts[i], r, span, strict) is Ok,
    decreases n,
{
    if n > 0 {
        lemma_target_union(alts, r, (n - 1) as nat, span, strict);
        if target_union_accepts(alts, r, n, span, strict) {
            if assign_inner_spec(alts[n - 1], r, span, strict) is Ok {
            } else {
                let i = choose|i: int|
                    0 <= i < n - 1 && assign_inner_spec(#[trigger] alts[i], r, span, strict) is Ok;
                assert(0 <= i < n && assign_inner_spec(alts[i], r, span, strict) is Ok);
            }
        }
    }
}

/// A target intersection accepts a source exactly when every one of its
/// parts does.
pub proof fn lemma_intersection(
    parts: Seq<TypeView>,
    r: TypeView,
    i: int,
    span: Span,
    strict: bool,
)
    requires
        0 <= i <= parts.len(),
    ensures
        intersection_spec(parts, r, i, span, strict) is Ok <==> forall|k: int|
            i <= k < parts.len() ==> assign_inner_spec(#[trigger] parts[k], r, span, strict) is Ok,
    decreases parts.len() - i,
{
    if i < parts.len() {
        lemma_intersection(parts, r, i + 1, span, strict);
        if intersection_spec(parts, r, i, span, strict) is Ok {
            assert forall|k: int| i <= k < parts.len() implies assign_inner_spec(
                #[trigger] parts[k],
                r,
                span,
                strict,
            ) is Ok by {
                if k == i {
                }
            }
        }
    }
}

/// An enum whose values belong to one primitive is assigned as that
/// primitive is.
pub proof fn lemma_enum_source(l: TypeView, r: TypeView, span: Span, strict: bool)
    requires
        r.normalized() matches TypeView::Enum(e) && enum_primitive(e) is Some,
        !(l.normalized() is Ref),
    ensures
        assign_inner_spec(l, r, span, strict) == assign_inner_spec(
            l,
            keyword_at(span, enum_primitive(r.normalized()->Enum_0)->Some_0),
            span,
            strict,
        ),
{
}

/// Top, as target: `any` and `unknown` take every type.
pub proof fn law_top_target(l: TypeView, r: TypeView, span: Span, strict: bool)
    requires
        l.is_keyword(KeywordKind::Any) || l.is_keyword(KeywordKind::Unknown),
        !(r.normalized() is Ref),
    ensures
        assign_spec(l, r, span, strict) is Ok,
{
}

/// `any` goes to every type whose canonical shape is resolved.
pub proof fn lemma_any_source_rule(l: TypeView, r: TypeView, span: Span, strict: bool)
    requires
        r.is_keyword(KeywordKind::Any),
        !(l.normalized() is Ref),
    ensures
        assign_inner_spec(l, r, span, strict) is Ok,
{
    if !l.normalized().is_top() && !primitive_to_wrapper(
        l.normalized(),
        r.generalized().normalized(),
    ) {
        lemma_reaches_source_rules(l, r, span, strict);
    }
}

/// Top, as source: `any` goes to every type.
pub proof fn law_any_source(l: TypeView, r: TypeView, span: Span, strict: bool)
    requires
        r.is_keyword(KeywordKind::Any),
        !(l.normalized() is Ref),
    ensures
        assign_spec(l, r, span, strict) is Ok,
{
}

/// Unknown asymmetry: `unknown` goes to `any` and to `undefined`, and to
/// no other type but itself.
pub proof fn law_unknown_source(l: TypeView, r: TypeView, span: Span, strict: bool)
    requires
        r.is_keyword(KeywordKind::Unknown),
        !(l.normalized() is Ref),
        !l.is_keyword(KeywordKind::Unknown),
    ensures
        assign_spec(l, r, span, strict) is Ok <==> (l.is_keyword(KeywordKind::Any)
            || l.is_keyword(KeywordKind::Undefined)),
{
}

/// Primitive and wrapper, one way: a primitive, or a literal of it, goes
/// to the interface that boxes it.
pub proof fn law_primitive_to_wrapper(l: TypeView, r: TypeView, span: Span, strict: bool)
    requires
        l.normalized() matches TypeView::Interface { name, .. } && r.generalized().normalized()
            matches TypeView::Keyword { kind, .. } && wrapper_name(kind) == Some(name),
        !(r.normalized() is Ref),
    ensures
        assign_spec(l, r, span, strict) is Ok,
{
}

/// Primitive and wrapper, the other way: the interface that boxes a
/// primitive does not go to the primitive.
pub proof fn law_wrapper_to_primitive(l: TypeView, r: TypeView, span: Span, strict: bool)
    requires
        l.normalized() matches TypeView::Keyword { kind, .. } && r.normalized()
            matches TypeView::Interface { name, .. } && wrapper_name(kind) == Some(name),
    ensures
        assign_inner_spec(l, r, span, strict) == Err::<(), ErrorView>(
            ErrorView::AssignedWrapperToPrimitive { span },
        ),
        assign_spec(l, r, span, strict) == Err::<(), ErrorView>(
            ErrorView::AssignFailed {
                span,
                left: l,
                right: r,
                cause: seq![ErrorView::AssignedWrapperToPrimitive { span }],
            },
        ),
{
    crate::canon::lemma_normalized_is_canonical(r);
}

/// The strict-null flag, off: `null` and `undefined` go to every type.
pub proof fn law_lenient_nullish(l: TypeView, r: TypeView, span: Span)
    requires
        r.normalized().is_nullish(),
        !(l.normalized() is Ref),
    ensures
        assign_spec(l, r, span, false) is Ok,
{
}

/// A target that neither delegates to its parts nor takes whatever it
/// cannot inspect: no union, intersection, constrained parameter or
/// object-like type.
pub open spec fn is_closed_target(l: TypeView) -> bool {
    match l {
        TypeView::Union { .. } => false,
        TypeView::Intersection { .. } => false,
        TypeView::TypeLit { .. } => false,
        TypeView::Interface { .. } => false,
        TypeView::Param(p) => p.constraint is None,
        TypeView::Ref { .. } => false,
        _ => true,
    }
}

/// The strict-null flag, on: `null` and `undefined` go to the tops and to
/// themselves, and to no other closed target.
pub proof fn law_strict_nullish(l: TypeView, r: TypeView, span: Span)
    requires
        r.is_nullish(),
        is_closed_target(l),
    ensures
        assign_spec(l, r, span, true) is Ok <==> (l.is_top() || (l matches TypeView::Keyword {
            kind,
            ..
        } && kind == r->Keyword_kind)),
{
    if !l.is_top() {
        lemma_reaches_source_rules(l, r, span, true);
        lemma_reaches_target_rules(l, r, span, true);
        let res = target_spec(l, r, span, true);
        assert(!l.same_ignoring_names_and_spans(r) || l is Keyword) by {
            assert(l.erased(true) is Keyword == l is Keyword);
        }
        assert(fallback_spec(l, r, span) is Ok ==> l is Keyword);
        match l {
            TypeView::Array { .. } => {
                assert(res == array_target_spec(l, r, span, true));
            },
            TypeView::Function { .. } => {
                assert(res == function_target_spec(l, r, span, true));
            },
            TypeView::Tuple { .. } => {
                assert(res == tuple_target_spec(l, r, span, true));
            },
            TypeView::Param(_) => {
                assert(res == fallback_spec(l, r, span));
            },
            _ => {
                assert(res == plain_target_spec(l, r, span));
            },
        }
    }
}

/// Union on the right is a demand: the union is assignable exactly when
/// every one of its alternatives is.
pub proof fn law_union_source(l: TypeView, r: TypeView, span: Span, strict: bool)
    requires
        r matches TypeView::Union { types, .. } && types.len() >= 2 && forall|i: int|
            0 <= i < types.len() ==> !((#[trigger] types[i]).normalized() is Ref),
    ensures
        assign_spec(l, r, span, strict) is Ok <==> forall|i: int|
            0 <= i < r->Union_types.len() ==> assign_spec(
                l,
                #[trigger] r->Union_types[i],
                span,
                strict,
            ) is Ok,
{
    let types = r->Union_types;
    lemma_source_union(l, r, types, types.len(), span, strict);
    assert forall|i: int| 0 <= i < types.len() implies (assign_spec(
        l,
        #[trigger] types[i],
        span,
        strict,
    ) is Ok <==> assign_inner_spec(l, types[i], span, strict) is Ok) by {
        lemma_outcome(l, types[i], span, strict);
    }
    if l.normalized() is Ref {
        assert(assign_inner_spec(l, types[0], span, strict) is Err);
    } else if l.normalized().is_top() {
        assert forall|i: int| 0 <= i < types.len() implies assign_inner_spec(
            l,
            #[trigger] types[i],
            span,
            strict,
        ) is Ok by {
            assert(!(types[i].normalized() is Ref));
        }
    }
}

/// A source that the rules keyed on the source pass on to the target
/// as it is, or widen to a primitive first: no union, type parameter,
/// `unknown` or unresolved reference, and no enum that mixes strings and
/// numbers.
pub open spec fn is_passed_on_source(r: TypeView) -> bool {
    match r.normalized() {
        TypeView::Union { .. } => false,
        TypeView::Param(_) => false,
        TypeView::Ref { .. } => false,
        TypeView::Keyword { kind, .. } => kind != KeywordKind::Unknown,
        TypeView::Enum(e) => enum_primitive(e) is Some,
        _ => true,
    }
}

/// A source that reaches the rules keyed on the target is assignable to a
/// union exactly when the union accepts it.
pub proof fn lemma_union_target_rule(l: TypeView, r: TypeView, span: Span, strict: bool)
    requires
        l matches TypeView::Union { types, .. } && types.len() >= 2,
        is_passed_on_source(r),
        !(r.normalized() is Enum),
        !r.is_keyword(KeywordKind::Any),
        !(r.normalized().is_nullish() && !strict),
    ensures
        assign_inner_spec(l, r, span, strict) is Ok <==> target_union_accepts(
            l->Union_types,
            r,
            l->Union_types.len(),
            span,
            strict,
        ),
{
    lemma_reaches_source_rules(l, r, span, strict);
    lemma_reaches_target_rules(l, r, span, strict);
    assert(target_spec(l, r, span, strict) is Ok <==> target_union_accepts(
        l->Union_types,
        r,
        l->Union_types.len(),
        span,
        strict,
    ));
}

/// A source that reaches the rules keyed on the target is assignable to an
/// intersection exactly when every part accepts it.
pub proof fn lemma_intersection_target_rule(l: TypeView, r: TypeView, span: Span, strict: bool)
    requires
        l is Intersection,
        is_passed_on_source(r),
        !(r.normalized() is Enum),
        !r.is_keyword(KeywordKind::Any),
        !(r.normalized().is_nullish() && !strict),
    ensures
        assign_inner_spec(l, r, span, strict) is Ok <==> intersection_spec(
            l->Intersection_types,
            r,
            0,
            span,
            strict,
        ) is Ok,
{
    lemma_reaches_source_rules(l, r, span, strict);
    lemma_reaches_target_rules(l, r, span, strict);
    assert(target_spec(l, r, span, strict) is Ok <==> intersection_spec(
        l->Intersection_types,
        r,
        0,
        span,
        strict,
    ) is Ok);
}

/// Union on the left is an offer: a source that is passed on is assignable
/// to the union exactly when it is assignable to one of the alternatives.
pub proof fn law_union_target(l: TypeView, r: TypeView, span: Span, strict: bool)
    requires
        l matches TypeView::Union { types, .. } && types.len() >= 2 && forall|i: int|
            0 <= i < types.len() ==> !((#[trigger] types[i]).normalized() is Ref),
        is_passed_on_source(r),
    ensures
        assign_spec(l, r, span, strict) is Ok <==> exists|i: int|
            0 <= i < l->Union_types.len() && assign_spec(
                #[trigger] l->Union_types[i],
                r,
                span,
                strict,
            ) is Ok,
{
    let types = l->Union_types;
    assert forall|i: int| 0 <= i < types.len() implies (assign_spec(
        #[trigger] types[i],
        r,
        span,
        strict,
    ) is Ok <==> assign_inner_spec(types[i], r, span, strict) is Ok) by {
        lemma_outcome(types[i], r, span, strict);
    }
    lemma_target_union(types, r, types.len(), span, strict);
    let rn = r.normalized();
    if rn.is_nullish() && !strict || rn.is_keyword(KeywordKind::Any) {
        assert(!(types[0].normalized() is Ref));
        assert(assign_inner_spec(types[0], r, span, strict) is Ok);
        assert(assign_inner_spec(l, r, span, strict) is Ok) by {
            if !(rn.is_nullish() && !strict) {
                lemma_reaches_source_rules(l, r, span, strict);
            }
        }
    } else if rn is Enum {
        let k = keyword_at(span, enum_primitive(rn->Enum_0)->Some_0);
        lemma_enum_source(l, r, span, strict);
        lemma_target_union(types, k, types.len(), span, strict);
        lemma_union_target_rule(l, k, span, strict);
        assert forall|i: int| 0 <= i < types.len() implies assign_inner_spec(
            #[trigger] types[i],
            r,
            span,
            strict,
        ) == assign_inner_spec(types[i], k, span, strict) by {
            lemma_enum_source(types[i], r, span, strict);
        }
    } else {
        lemma_union_target_rule(l, r, span, strict);
    }
}

/// A source of which an intersection demands what its parts demand: a
/// source that is passed on, or a union of such sources.
pub open spec fn is_shared_source(r: TypeView) -> bool
    decreases r,
{
    match r {
        TypeView::Union { types, .. } => types.len() >= 2 && forall|i: int|
            0 <= i < types.len() ==> is_shared_source(#[trigger] types[i]),
        _ => is_passed_on_source(r),
    }
}

/// No shared source is an unresolved reference.
pub proof fn lemma_shared_source_is_resolved(r: TypeView)
    requires
        is_shared_source(r),
    ensures
        !(r.normalized() is Ref),
{
}

/// Intersection on the left: a shared source is assignable to the
/// intersection exactly when it is assignable to every part.
pub proof fn law_intersection_target(l: TypeView, r: TypeView, span: Span, strict: bool)
    requires
        l matches TypeView::Intersection { types, .. } && forall|i: int|
            0 <= i < types.len() ==> !((#[trigger] types[i]).normalized() is Ref),
        is_shared_source(r),
    ensures
        assign_spec(l, r, span, strict) is Ok <==> forall|i: int|
            0 <= i < l->Intersection_types.len() ==> assign_spec(
                #[trigger] l->Intersection_types[i],
                r,
                span,
                strict,
            ) is Ok,
    decreases r,
{
    let types = l->Intersection_types;
    assert forall|i: int| 0 <= i < types.len() implies (assign_spec(
        #[trigger] types[i],
        r,
        span,
        strict,
    ) is Ok <==> assign_inner_spec(types[i], r, span, strict) is Ok) by {
        lemma_outcome(types[i], r, span, strict);
    }
    lemma_outcome(l, r, span, strict);
    match r {
        TypeView::Union { types: alts, .. } => {
            // The union demands every alternative, of the intersection and
            // of each part alike.
            assert forall|k: int| 0 <= k < alts.len() implies !((#[trigger] alts[k]).normalized()
                is Ref) by {
                lemma_shared_source_is_resolved(alts[k]);
            }
            law_union_source(l, r, span, strict);
            assert forall|i: int| 0 <= i < types.len() implies (assign_spec(
                #[trigger] types[i],
                r,
                span,
                strict,
            ) is Ok <==> forall|k: int|
                0 <= k < alts.len() ==> assign_spec(types[i], #[trigger] alts[k], span, strict)
                    is Ok) by {
                law_union_source(types[i], r, span, strict);
            }
            assert forall|k: int| 0 <= k < alts.len() implies (assign_spec(
                l,
                #[trigger] alts[k],
                span,
                strict,
            ) is Ok <==> forall|i: int|
                0 <= i < types.len() ==> assign_spec(#[trigger] types[i], alts[k], span, strict)
                    is Ok) by {
                law_intersection_target(l, alts[k], span, strict);
            }
        },
        _ => {
            lemma_intersection_of_passed_on(l, r, span, strict);
        },
    }
}

/// Intersection on the left, for a source that is passed on.
pub proof fn lemma_intersection_of_passed_on(l: TypeView, r: TypeView, span: Span, strict: bool)
    requires
        l matches TypeView::Intersection { types, .. } && forall|i: int|
            0 <= i < types.len() ==> !((#[trigger] types[i]).normalized() is Ref),
        is_passed_on_source(r),
    ensures
        assign_inner_spec(l, r, span, strict) is Ok <==> forall|i: int|
            0 <= i < l->Intersection_types.len() ==> assign_inner_spec(
                #[trigger] l->Intersection_types[i],
                r,
                span,
                strict,
            ) is Ok,
{
    let types = l->Intersection_types;
    lemma_intersection(types, r, 0, span, strict);
    let rn = r.normalized();
    if rn.is_nullish() && !strict || rn.is_keyword(KeywordKind::Any) {
        assert forall|i: int| 0 <= i < types.len() implies assign_inner_spec(
            #[trigger] types[i],
            r,
            span,
            strict,
        ) is Ok by {
            assert(!(types[i].normalized() is Ref));
            if !(rn.is_nullish() && !strict) {
                lemma_any_source_rule(types[i], r, span, strict);
            }
        }
        assert(assign_inner_spec(l, r, span, strict) is Ok) by {
            if !(rn.is_nullish() && !strict) {
                lemma_any_source_rule(l, r, span, strict);
            }
        }
    } else if rn is Enum {
        let k = keyword_at(span, enum_primitive(rn->Enum_0)->Some_0);
        lemma_enum_source(l, r, span, strict);
        lemma_intersection(types, k, 0, span, strict);
        lemma_intersection_target_rule(l, k, span, strict);
        assert forall|i: int| 0 <= i < types.len() implies assign_inner_spec(
            #[trigger] types[i],
            r,
            span,
            strict,
        ) == assign_inner_spec(types[i], k, span, strict) by {
            lemma_enum_source(types[i], r, span, strict);
        }
    } else {
        lemma_intersection_target_rule(l, r, span, strict);
    }
}

/// Enum variant identity: an enum takes its own variants and no variant of
/// another enum.
pub proof fn law_enum_variant(e: EnumView, r: TypeView, span: Span, strict: bool)
    requires
        r is EnumVariant,
    ensures
        assign_spec(TypeView::Enum(e), r, span, strict) is Ok <==> r->EnumVariant_enum_name
            == e.id,
{
    let l = TypeView::Enum(e);
    lemma_reaches_source_rules(l, r, span, strict);
    lemma_reaches_target_rules(l, r, span, strict);
    assert(target_spec(l, r, span, strict) == plain_target_spec(l, r, span));
}

/// Tuple length: a tuple does not take a longer tuple.
pub proof fn law_tuple_length(l: TypeView, r: TypeView, span: Span, strict: bool)
    requires
        l is Tuple,
        r is Tuple,
        l->Tuple_elems.len() < r->Tuple_elems.len(),
    ensures
        assign_spec(l, r, span, strict) is Err,
{
    lemma_reaches_source_rules(l, r, span, strict);
    lemma_reaches_target_rules(l, r, span, strict);
    assert(target_spec(l, r, span, strict) == tuple_target_spec(l, r, span, strict));
}

/// From position `i` on, every element of the source is `undefined` or is
/// assignable to the element of the target at its position.
pub open spec fn elementwise(
    elems: Seq<TypeView>,
    r_elems: Seq<TypeView>,
    i: int,
    span: Span,
    strict: bool,
) -> bool {
    forall|k: int|
        i <= k < r_elems.len() ==> (#[trigger] r_elems[k]).is_keyword(KeywordKind::Undefined)
            || assign_inner_spec(elems[k], r_elems[k], span, strict) is Ok
}

/// Tuple to tuple goes position by position, and `undefined` goes to every
/// position.
pub proof fn lemma_tuple(
    elems: Seq<TypeView>,
    r_elems: Seq<TypeView>,
    i: int,
    span: Span,
    strict: bool,
)
    requires
        0 <= i,
        r_elems.len() <= elems.len(),
    ensures
        tuple_spec(elems, r_elems, i, span, strict) is Ok <==> elementwise(
            elems,
            r_elems,
            i,
            span,
            strict,
        ),
    decreases r_elems.len() - i,
{
    if i < r_elems.len() {
        lemma_tuple(elems, r_elems, i + 1, span, strict);
        if tuple_spec(elems, r_elems, i, span, strict) is Ok {
            assert forall|k: int| i <= k < r_elems.len() implies (#[trigger] r_elems[k]).is_keyword(
                KeywordKind::Undefined,
            ) || assign_inner_spec(elems[k], r_elems[k], span, strict) is Ok by {
                if k == i {
                }
            }
        } else {
            if elementwise(elems, r_elems, i, span, strict) {
                assert(r_elems[i].is_keyword(KeywordKind::Undefined) || assign_inner_spec(
                    elems[i],
                    r_elems[i],
                    span,
                    strict,
                ) is Ok);
            }
        }
    }
}

/// The tuple escape hatch: a tuple takes a tuple that is no longer than
/// itself exactly when every element of the source is `undefined` or goes
/// to the element of the target at its position.
pub proof fn law_tuple_elements(l: TypeView, r: TypeView, span: Span, strict: bool)
    requires
        l is Tuple,
        r is Tuple,
        r->Tuple_elems.len() <= l->Tuple_elems.len(),
    ensures
        assign_spec(l, r, span, strict) is Ok <==> elementwise(
            l->Tuple_elems,
            r->Tuple_elems,
            0,
            span,
            strict,
        ),
{
    lemma_tuple(l->Tuple_elems, r->Tuple_elems, 0, span, strict);
    lemma_reaches_source_rules(l, r, span, strict);
    lemma_reaches_target_rules(l, r, span, strict);
    assert(target_spec(l, r, span, strict) == tuple_target_spec(l, r, span, strict));
}

/// Literal widening: a literal goes to the primitive that holds it, and
/// the primitive does not go to the literal.
pub proof fn law_literal_widening(lit: crate::ty::LitView, span: Span, at: Span, strict: bool)
    ensures
        assign_spec(keyword_at(at, lit.primitive()), TypeView::Lit(lit), span, strict) is Ok,
        assign_spec(TypeView::Lit(lit), keyword_at(at, lit.primitive()), span, strict) is Err,
{
    let k = keyword_at(at, lit.primitive());
    let l = TypeView::Lit(lit);
    lemma_reaches_source_rules(k, l, span, strict);
    lemma_reaches_target_rules(k, l, span, strict);
    assert(target_spec(k, l, span, strict) == plain_target_spec(k, l, span));
    lemma_reaches_source_rules(l, k, span, strict);
    lemma_reaches_target_rules(l, k, span, strict);
    assert(target_spec(l, k, span, strict) == plain_target_spec(l, k, span));
}

/// Every element of a source tuple, from `i` on, goes to the element
/// type exactly when the walk over them finds no failure.
pub proof fn lemma_array_from_tuple(
    elem: TypeView,
    r_elems: Seq<TypeView>,
    i: int,
    span: Span,
    strict: bool,
)
    requires
        0 <= i,
    ensures
        array_from_tuple_spec(elem, r_elems, i, span, strict) is Ok <==> forall|k: int|
            i <= k < r_elems.len() ==> assign_inner_spec(elem, #[trigger] r_elems[k], span, strict)
                is Ok,
    decreases r_elems.len() - i,
{
    if i < r_elems.len() {
        lemma_array_from_tuple(elem, r_elems, i + 1, span, strict);
        if array_from_tuple_spec(elem, r_elems, i, span, strict) is Ok {
            assert forall|k: int| i <= k < r_elems.len() implies assign_inner_spec(
                elem,
                #[trigger] r_elems[k],
                span,
                strict,
            ) is Ok by {
                if k == i {
                }
            }
        }
    }
}

/// Array from tuple: an array takes a tuple exactly when its element type
/// takes every element of the tuple.
pub proof fn law_array_from_tuple(l: TypeView, r: TypeView, span: Span, strict: bool)
    requires
        l is Array,
        r is Tuple,
    ensures
        assign_spec(l, r, span, strict) is Ok <==> forall|k: int|
            0 <= k < r->Tuple_elems.len() ==> assign_spec(
                *l->Array_elem,
                #[trigger] r->Tuple_elems[k],
                span,
                strict,
            ) is Ok,
{
    let elem = *l->Array_elem;
    let r_elems = r->Tuple_elems;
    lemma_array_from_tuple(elem, r_elems, 0, span, strict);
    assert forall|k: int| 0 <= k < r_elems.len() implies (assign_spec(
        elem,
        #[trigger] r_elems[k],
        span,
        strict,
    ) is Ok <==> assign_inner_spec(elem, r_elems[k], span, strict) is Ok) by {
        lemma_outcome(elem, r_elems[k], span, strict);
    }
    lemma_reaches_source_rules(l, r, span, strict);
    lemma_reaches_target_rules(l, r, span, strict);
    assert(target_spec(l, r, span, strict) == array_target_spec(l, r, span, strict));
}

/// Determinism: the outcome of a query is a function of what the two
/// types are, of the location and of the switches. Types with the same
/// views, wherever they are stored, get the same outcome.
pub proof fn law_deterministic(l: Type, r: Type, l2: Type, r2: Type, span: Span, strict: bool)
    requires
        l@ == l2@,
        r@ == r2@,
    ensures
        assign_spec(l@, r@, span, strict) == assign_spec(l2@, r2@, span, strict),
{
}

} // verus!
