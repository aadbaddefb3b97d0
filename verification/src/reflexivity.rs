//! Reflexivity: the types that are assignable to themselves.

use vstd::prelude::*;
use swc_common::Span;
use crate::errors::ErrorView;
use crate::keys::key_equal;
use crate::laws::{
    lemma_any_source_rule, lemma_outcome, lemma_reaches_source_rules,
    lemma_reaches_target_rules, lemma_source_union, lemma_target_union, lemma_tuple,
    lemma_union_target_rule,
};
use crate::rules::{
    array_target_spec, assign_inner_spec, assign_spec, declared_or_any, fallback_spec,
    find_method, find_property, function_target_spec, has_equal_element, lemma_find_method,
    lemma_find_property, member_outcome, members_spec, missing_members, object_members_spec,
    plain_target_spec, source_spec, target_spec, tuple_target_spec,
    untyped_target_spec, MemberOutcome,
};
use crate::ty::{KeywordKind, TypeElementView, TypeView};

verus! {

/// An alternative of a union that the rules keyed on the source pass on to
/// the union: no union, type parameter or `unknown`.
pub open spec fn is_plain_alternative(a: TypeView) -> bool {
    match a {
        TypeView::Union { .. } => false,
        TypeView::Param(_) => false,
        TypeView::Keyword { kind, .. } => kind != KeywordKind::Unknown,
        _ => true,
    }
}

/// The member at `i` is found again by its own key: the key is spelled,
/// and no member of its kind before it has an equal key.
pub open spec fn is_found_again(ms: Seq<TypeElementView>, i: int) -> bool {
    match ms[i] {
        TypeElementView::Property { key, .. } => {
            &&& key is Ident || key is Str
            &&& forall|j: int|
                0 <= j < i ==> !(#[trigger] ms[j] matches TypeElementView::Property {
                    key: other,
                    ..
                } && key_equal(key, other))
        },
        TypeElementView::Method { key, .. } => {
            &&& key is Ident || key is Str
            &&& forall|j: int|
                0 <= j < i ==> !(#[trigger] ms[j] matches TypeElementView::Method {
                    key: other,
                    ..
                } && key_equal(key, other))
        },
        _ => true,
    }
}

/// Every member is found again by its own key.
pub open spec fn are_found_again(ms: Seq<TypeElementView>) -> bool {
    forall|i: int| 0 <= i < ms.len() ==> #[trigger] is_found_again(ms, i)
}

/// The declared types of the properties among `ms` are reflexive.
pub open spec fn have_reflexive_types(ms: Seq<TypeElementView>) -> bool
    decreases ms,
{
    forall|i: int|
        0 <= i < ms.len() ==> match #[trigger] ms[i] {
            TypeElementView::Property { ty: Some(t), .. } => is_reflexive(*t),
            _ => true,
        }
}

/// The types of which reflexivity holds. Left out are the types that no
/// rule assigns to themselves: `this`, predicates, enums (an enum is
/// assigned as a primitive is, and no enum takes a primitive),
/// intersections, unresolved references, and the unions and object-like
/// types whose parts are left out or are not found again.
pub open spec fn is_reflexive(t: TypeView) -> bool
    decreases t,
{
    match t {
        TypeView::Keyword { .. } => true,
        TypeView::Lit(_) => true,
        TypeView::Class(_) => true,
        TypeView::ClassInstance { .. } => true,
        TypeView::Constructor { .. } => true,
        TypeView::Param(_) => true,
        TypeView::EnumVariant { .. } => true,
        TypeView::Array { elem, .. } => is_reflexive(*elem),
        TypeView::Tuple { elems, .. } => forall|i: int|
            0 <= i < elems.len() ==> is_reflexive(#[trigger] elems[i]),
        TypeView::Union { types, .. } => types.len() >= 2 && forall|i: int|
            0 <= i < types.len() ==> is_reflexive(#[trigger] types[i]) && is_plain_alternative(
                types[i],
            ),
        TypeView::TypeLit { members, .. } => are_found_again(members) && have_reflexive_types(
            members,
        ),
        TypeView::Interface { body, .. } => are_found_again(body) && have_reflexive_types(body),
        TypeView::Function { sig, .. } => sig.type_params is Some || is_reflexive(*sig.ret),
        _ => false,
    }
}

/// A property that is the first of its key is the one that a search for
/// its key finds.
pub proof fn lemma_finds_own_property(ms: Seq<TypeElementView>, i: int)
    requires
        0 <= i < ms.len(),
        ms[i] matches TypeElementView::Property { key, .. } && key_equal(key, key) && forall|
            j: int,
        |
            0 <= j < i ==> !(#[trigger] ms[j] matches TypeElementView::Property {
                key: other,
                ..
            } && key_equal(key, other)),
    ensures
        find_property(ms, ms[i]->Property_key, 0) == Some(i),
{
    lemma_find_property(ms, ms[i]->Property_key, 0);
}

/// A method that is the first of its key is the one that a search for its
/// key finds.
pub proof fn lemma_finds_own_method(ms: Seq<TypeElementView>, i: int)
    requires
        0 <= i < ms.len(),
        ms[i] matches TypeElementView::Method { key, .. } && key_equal(key, key) && forall|j: int|
            0 <= j < i ==> !(#[trigger] ms[j] matches TypeElementView::Method {
                key: other,
                ..
            } && key_equal(key, other)),
    ensures
        find_method(ms, ms[i]->Method_key, 0) == Some(i),
{
    lemma_find_method(ms, ms[i]->Method_key, 0);
}

/// A member that is found again, and whose declared type goes to itself,
/// is matched by the member list it stands in.
pub proof fn lemma_member_matches_itself(
    l: TypeView,
    r: TypeView,
    ms: Seq<TypeElementView>,
    i: int,
    span: Span,
    strict: bool,
)
    requires
        0 <= i < ms.len(),
        is_found_again(ms, i),
        ms[i] matches TypeElementView::Property { ty: Some(t), .. } ==> assign_inner_spec(
            *t,
            *t,
            span,
            strict,
        ) is Ok,
    ensures
        member_outcome(l, r, ms[i], ms, span, strict) == MemberOutcome::Matched,
{
    match ms[i] {
        TypeElementView::Property { key, ty, .. } => {
            lemma_finds_own_property(ms, i);
            assert(declared_or_any(ms[i]->Property_ty, span) == declared_or_any(ty, span));
            match ty {
                Some(t) => {},
                None => {
                    assert(untyped_target_spec(declared_or_any(ty, span), span) is Ok);
                },
            }
        },
        TypeElementView::Method { key, .. } => {
            lemma_finds_own_method(ms, i);
        },
        TypeElementView::Index { .. } => {},
        _ => {
            assert(has_equal_element(ms, ms[i]));
        },
    }
}

/// Members that are found again, and whose declared types go to
/// themselves, are all matched by their own list: none is missing.
pub proof fn lemma_members_match_themselves(
    l: TypeView,
    r: TypeView,
    ms: Seq<TypeElementView>,
    n: nat,
    span: Span,
    strict: bool,
)
    requires
        n <= ms.len(),
        are_found_again(ms),
        forall|i: int|
            0 <= i < ms.len() ==> (#[trigger] ms[i] matches TypeElementView::Property {
                ty: Some(t),
                ..
            } ==> assign_inner_spec(*t, *t, span, strict) is Ok),
    ensures
        missing_members(l, r, ms, ms, n, span, strict) == Ok::<Seq<TypeElementView>, ErrorView>(
            Seq::empty(),
        ),
    decreases n,
{
    if n > 0 {
        lemma_members_match_themselves(l, r, ms, (n - 1) as nat, span, strict);
        assert(is_found_again(ms, n - 1));
        lemma_member_matches_itself(l, r, ms, n - 1, span, strict);
    }
}

/// An object-like type whose members are matched by their own list goes
/// to itself.
pub proof fn lemma_object_goes_to_itself(t: TypeView, span: Span, strict: bool)
    requires
        t is TypeLit || t is Interface,
        ({
            let ms = if t is TypeLit {
                t->TypeLit_members
            } else {
                t->Interface_body
            };
            missing_members(t, t, ms, ms, ms.len(), span, strict) == Ok::<
                Seq<TypeElementView>,
                ErrorView,
            >(Seq::empty())
        }),
    ensures
        assign_inner_spec(t, t, span, strict) is Ok,
{
    let ms = if t is TypeLit {
        t->TypeLit_members
    } else {
        t->Interface_body
    };
    lemma_reaches_source_rules(t, t, span, strict);
    lemma_reaches_target_rules(t, t, span, strict);
    assert(target_spec(t, t, span, strict) == members_spec(t, t, ms, span, strict));
    assert(members_spec(t, t, ms, span, strict) == object_members_spec(
        t,
        t,
        ms,
        ms,
        span,
        strict,
    ));
}

/// An alternative of a reflexive union goes to the union.
pub proof fn lemma_alternative_goes_to_union(u: TypeView, i: int, span: Span, strict: bool)
    requires
        u matches TypeView::Union { types, .. } && types.len() >= 2 && 0 <= i < types.len()
            && is_plain_alternative(types[i]) && is_reflexive(types[i]) && assign_inner_spec(
            types[i],
            types[i],
            span,
            strict,
        ) is Ok,
    ensures
        assign_inner_spec(u, u->Union_types[i], span, strict) is Ok,
{
    let types = u->Union_types;
    let a = types[i];
    assert(a.normalized() == a);
    if a.is_nullish() && !strict {
    } else if a.is_keyword(KeywordKind::Any) {
        lemma_any_source_rule(u, a, span, strict);
    } else {
        lemma_union_target_rule(u, a, span, strict);
        lemma_target_union(types, a, types.len(), span, strict);
    }
}

/// A union whose every alternative goes to it goes to itself.
pub proof fn lemma_union_goes_to_itself(t: TypeView, span: Span, strict: bool)
    requires
        t matches TypeView::Union { types, .. } && types.len() >= 2 && forall|i: int|
            0 <= i < types.len() ==> assign_inner_spec(t, #[trigger] types[i], span, strict)
                is Ok,
    ensures
        assign_inner_spec(t, t, span, strict) is Ok,
{
    let types = t->Union_types;
    lemma_source_union(t, t, types, types.len(), span, strict);
    lemma_reaches_source_rules(t, t, span, strict);
    assert(source_spec(t, t, span, strict) is Ok);
}

/// An array whose element type goes to itself goes to itself.
pub proof fn lemma_array_goes_to_itself(t: TypeView, span: Span, strict: bool)
    requires
        t matches TypeView::Array { elem, .. } && assign_inner_spec(*elem, *elem, span, strict)
            is Ok,
    ensures
        assign_inner_spec(t, t, span, strict) is Ok,
{
    lemma_reaches_source_rules(t, t, span, strict);
    lemma_reaches_target_rules(t, t, span, strict);
    assert(target_spec(t, t, span, strict) == array_target_spec(t, t, span, strict));
}

/// A tuple whose every element goes to itself goes to itself.
pub proof fn lemma_tuple_goes_to_itself(t: TypeView, span: Span, strict: bool)
    requires
        t matches TypeView::Tuple { elems, .. } && forall|k: int|
            0 <= k < elems.len() ==> assign_inner_spec(elems[k], #[trigger] elems[k], span, strict)
                is Ok,
    ensures
        assign_inner_spec(t, t, span, strict) is Ok,
{
    let elems = t->Tuple_elems;
    lemma_tuple(elems, elems, 0, span, strict);
    lemma_reaches_source_rules(t, t, span, strict);
    lemma_reaches_target_rules(t, t, span, strict);
    assert(target_spec(t, t, span, strict) == tuple_target_spec(t, t, span, strict));
}

/// A function goes to itself where it has type parameters, or where its
/// result goes to itself.
pub proof fn lemma_function_goes_to_itself(t: TypeView, span: Span, strict: bool)
    requires
        t matches TypeView::Function { sig, .. } && (sig.type_params is Some || assign_inner_spec(
            *sig.ret,
            *sig.ret,
            span,
            strict,
        ) is Ok),
    ensures
        assign_inner_spec(t, t, span, strict) is Ok,
{
    lemma_reaches_source_rules(t, t, span, strict);
    lemma_reaches_target_rules(t, t, span, strict);
    assert(target_spec(t, t, span, strict) == function_target_spec(t, t, span, strict));
    assert(fallback_spec(t, t, span) is Ok);
}

/// The types that a rule of their own kind, or equality, assigns to
/// themselves.
pub proof fn lemma_plain_goes_to_itself(t: TypeView, span: Span, strict: bool)
    requires
        t is Keyword || t is Lit || t is Class || t is ClassInstance || t is Constructor || t
            is Param || t is EnumVariant,
    ensures
        assign_inner_spec(t, t, span, strict) is Ok,
{
    if t is Keyword && (t.is_top() || (t.is_nullish() && !strict)) {
    } else if t is Param {
        lemma_reaches_source_rules(t, t, span, strict);
        assert(source_spec(t, t, span, strict) is Ok);
    } else {
        lemma_reaches_source_rules(t, t, span, strict);
        lemma_reaches_target_rules(t, t, span, strict);
        assert(target_spec(t, t, span, strict) == plain_target_spec(t, t, span));
        assert(fallback_spec(t, t, span) is Ok);
    }
}

/// Reflexivity: a reflexive type is assignable to itself.
pub proof fn law_reflexive(t: TypeView, span: Span, strict: bool)
    requires
        is_reflexive(t),
    ensures
        assign_inner_spec(t, t, span, strict) is Ok,
        assign_spec(t, t, span, strict) is Ok,
    decreases t,
{
    lemma_outcome(t, t, span, strict);
    match t {
        TypeView::Array { elem, .. } => {
            law_reflexive(*elem, span, strict);
            lemma_array_goes_to_itself(t, span, strict);
        },
        TypeView::Tuple { elems, .. } => {
            assert forall|k: int| 0 <= k < elems.len() implies assign_inner_spec(
                elems[k],
                #[trigger] elems[k],
                span,
                strict,
            ) is Ok by {
                law_reflexive(elems[k], span, strict);
            }
            lemma_tuple_goes_to_itself(t, span, strict);
        },
        TypeView::Union { types, .. } => {
            assert forall|i: int| 0 <= i < types.len() implies assign_inner_spec(
                t,
                #[trigger] types[i],
                span,
                strict,
            ) is Ok by {
                law_reflexive(types[i], span, strict);
                lemma_alternative_goes_to_union(t, i, span, strict);
            }
            lemma_union_goes_to_itself(t, span, strict);
        },
        TypeView::TypeLit { members, .. } => {
            law_reflexive_members(members, span, strict);
            lemma_members_match_themselves(t, t, members, members.len(), span, strict);
            lemma_object_goes_to_itself(t, span, strict);
        },
        TypeView::Interface { body, .. } => {
            law_reflexive_members(body, span, strict);
            lemma_members_match_themselves(t, t, body, body.len(), span, strict);
            lemma_object_goes_to_itself(t, span, strict);
        },
        TypeView::Function { sig, .. } => {
            if sig.type_params is None {
                law_reflexive(*sig.ret, span, strict);
            }
            lemma_function_goes_to_itself(t, span, strict);
        },
        _ => {
            lemma_plain_goes_to_itself(t, span, strict);
        },
    }
}

/// The declared types of reflexive members go to themselves.
pub proof fn law_reflexive_members(ms: Seq<TypeElementView>, span: Span, strict: bool)
    requires
        have_reflexive_types(ms),
    ensures
        forall|i: int|
            0 <= i < ms.len() ==> (#[trigger] ms[i] matches TypeElementView::Property {
                ty: Some(t),
                ..
            } ==> assign_inner_spec(*t, *t, span, strict) is Ok),
    decreases ms,
{
    assert forall|i: int| 0 <= i < ms.len() implies (
    #[trigger] ms[i] matches TypeElementView::Property { ty: Some(t), .. } ==> assign_inner_spec(
        *t,
        *t,
        span,
        strict,
    ) is Ok) by {
        match ms[i] {
            TypeElementView::Property { ty: Some(t), .. } => {
                law_reflexive(*t, span, strict);
            },
            _ => {},
        }
    }
}

} // verus!
