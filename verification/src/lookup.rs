//! The small decisions that the rules rest on: names, literals, and the
//! search for a member.

use vstd::prelude::*;
use crate::equal::element_eq;
use crate::keys::{ident_equal, is_key_eq, is_prop_name_eq};
use crate::rules::{
    enum_primitive, find_method, find_property, has_class_property, has_constructor,
    has_equal_element, has_num_init, has_str_init, keyword_accepts, lit_value_equal,
    wrapper_name,
};
use crate::symbol::Symbol;
use crate::ty::{
    class_member_views, element_views, enum_member_views, ClassMember, ClassMemberView, Enum, Key,
    KeywordKind, Lit, LitView, Type, TypeElement,
};

verus! {

/// Whether `name` is the name of the interface that boxes `kind`.
pub fn is_wrapper_of(name: &Symbol, kind: KeywordKind) -> (b: bool)
    ensures
        b == (wrapper_name(kind) == Some(name@)),
{
    match kind {
        KeywordKind::Boolean => name.spells("Boolean"),
        KeywordKind::Str => name.spells("String"),
        KeywordKind::Number => name.spells("Number"),
        _ => false,
    }
}

/// The primitive that the enum's values belong to.
pub fn enum_primitive_of(e: &Enum) -> (k: Option<KeywordKind>)
    ensures
        k == enum_primitive(e@),
{
    let mut has_str = false;
    let mut has_num = false;
    let ghost ms = enum_member_views(e.members@);
    let mut i: usize = 0;
    while i < e.members.len()
        invariant
            i <= e.members.len(),
            ms == enum_member_views(e.members@),
            has_str == (exists|j: int|
                0 <= j < i && (#[trigger] ms[j]).init matches Some(LitView::Str { .. })),
            has_num == (exists|j: int|
                0 <= j < i && (#[trigger] ms[j]).init matches Some(LitView::Number { .. })),
        decreases e.members.len() - i,
    {
        assert(ms[i as int] == e.members@[i as int]@);
        match &e.members[i].init {
            Some(Lit::Str { .. }) => {
                has_str = true;
            },
            Some(Lit::Number { .. }) => {
                has_num = true;
            },
            _ => {},
        }
        i += 1;
    }
    assert(ms.len() == e.members.len());
    assert(has_str == has_str_init(ms));
    assert(has_num == has_num_init(ms));
    if !has_str {
        Some(KeywordKind::Number)
    } else if !has_num {
        Some(KeywordKind::Str)
    } else {
        None
    }
}

/// Whether two literals hold the same value.
pub fn lit_value_eq(a: &Lit, b: &Lit) -> (r: bool)
    ensures
        r == lit_value_equal(a@, b@),
{
    match a {
        Lit::Str { value: v1, .. } => match b {
            Lit::Str { value: v2, .. } => v1.same(v2),
            _ => false,
        },
        Lit::Number { text: t1, .. } => match b {
            Lit::Number { text: t2, .. } => t1.same(t2),
            _ => false,
        },
        Lit::Bool { value: v1, .. } => match b {
            Lit::Bool { value: v2, .. } => *v1 == *v2,
            _ => false,
        },
    }
}

/// Whether the keyword `kind` accepts the canonical source `rn`.
pub fn keyword_accepts_exec(kind: KeywordKind, rn: &Type) -> (r: bool)
    ensures
        r == keyword_accepts(kind, rn@),
{
    match rn {
        Type::Keyword { kind: rk, .. } => *rk == kind,
        Type::Lit(l) => l.primitive() == kind,
        _ => false,
    }
}

/// Whether `object` accepts the canonical source `rn` besides itself.
pub fn is_object_like_exec(rn: &Type) -> (r: bool)
    ensures
        r == rn@.is_object_like(),
{
    match rn {
        Type::Keyword { kind, .. } => *kind == KeywordKind::Number || *kind == KeywordKind::Str,
        Type::Function { .. } => true,
        Type::Constructor { .. } => true,
        Type::Enum(_) => true,
        Type::Class(_) => true,
        Type::TypeLit { .. } => true,
        _ => false,
    }
}

/// The first property of `rms` whose key equals `key`.
pub fn find_property_index(rms: &Vec<TypeElement>, key: &Key) -> (r: Option<usize>)
    ensures
        match r {
            Some(j) => find_property(element_views(rms@), key@, 0) == Some(j as int) && j
                < rms.len(),
            None => find_property(element_views(rms@), key@, 0) is None,
        },
{
    let ghost vs = element_views(rms@);
    let mut j: usize = 0;
    while j < rms.len()
        invariant
            j <= rms.len(),
            vs == element_views(rms@),
            find_property(vs, key@, 0) == find_property(vs, key@, j as int),
        decreases rms.len() - j,
    {
        assert(vs[j as int] == rms@[j as int]@);
        match &rms[j] {
            TypeElement::Property { key: rk, .. } => {
                if is_prop_name_eq(key, rk) {
                    return Some(j);
                }
            },
            _ => {},
        }
        j += 1;
    }
    None
}

/// The first method of `rms` whose key equals `key`.
pub fn find_method_index(rms: &Vec<TypeElement>, key: &Key) -> (r: Option<usize>)
    ensures
        match r {
            Some(j) => find_method(element_views(rms@), key@, 0) == Some(j as int) && j
                < rms.len(),
            None => find_method(element_views(rms@), key@, 0) is None,
        },
{
    let ghost vs = element_views(rms@);
    let mut j: usize = 0;
    while j < rms.len()
        invariant
            j <= rms.len(),
            vs == element_views(rms@),
            find_method(vs, key@, 0) == find_method(vs, key@, j as int),
        decreases rms.len() - j,
    {
        assert(vs[j as int] == rms@[j as int]@);
        match &rms[j] {
            TypeElement::Method { key: rk, .. } => {
                if is_prop_name_eq(key, rk) {
                    return Some(j);
                }
            },
            _ => {},
        }
        j += 1;
    }
    None
}

/// Whether some member of `rms` equals `m` up to names and locations.
pub fn has_equal_element_exec(rms: &Vec<TypeElement>, m: &TypeElement) -> (r: bool)
    ensures
        r == has_equal_element(element_views(rms@), m@),
{
    let ghost vs = element_views(rms@);
    let mut j: usize = 0;
    while j < rms.len()
        invariant
            j <= rms.len(),
            vs == element_views(rms@),
            forall|k: int| 0 <= k < j ==> (#[trigger] vs[k]).erased(true) != m@.erased(true),
        decreases rms.len() - j,
    {
        assert(vs[j as int] == rms@[j as int]@);
        if element_eq(&rms[j], m, true) {
            return true;
        }
        j += 1;
    }
    assert(vs.len() == rms.len());
    false
}

/// Whether the class has a constructor.
pub fn has_constructor_exec(body: &Vec<ClassMember>) -> (r: bool)
    ensures
        r == has_constructor(class_member_views(body@)),
{
    let ghost vs = class_member_views(body@);
    let mut j: usize = 0;
    while j < body.len()
        invariant
            j <= body.len(),
            vs == class_member_views(body@),
            forall|k: int| 0 <= k < j ==> !(#[trigger] vs[k] is Constructor),
        decreases body.len() - j,
    {
        assert(vs[j as int] == body@[j as int]@);
        match &body[j] {
            ClassMember::Constructor { .. } => {
                return true;
            },
            _ => {},
        }
        j += 1;
    }
    assert(vs.len() == body.len());
    false
}

/// Whether the class has a property whose key is the identifier `key`.
pub fn has_class_property_exec(body: &Vec<ClassMember>, key: &Key) -> (r: bool)
    ensures
        r == has_class_property(class_member_views(body@), key@),
{
    let ghost vs = class_member_views(body@);
    let mut j: usize = 0;
    while j < body.len()
        invariant
            j <= body.len(),
            vs == class_member_views(body@),
            forall|k: int|
                0 <= k < j ==> !(#[trigger] vs[k] matches ClassMemberView::Property { key: rk, .. }
                    && ident_equal(key@, rk)),
        decreases body.len() - j,
    {
        assert(vs[j as int] == body@[j as int]@);
        match &body[j] {
            ClassMember::Property { key: rk, .. } => {
                if is_key_eq(key, rk) {
                    return true;
                }
            },
            _ => {},
        }
        j += 1;
    }
    assert(vs.len() == body.len());
    false
}

} // verus!
