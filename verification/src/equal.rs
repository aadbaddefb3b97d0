//! Deciding equality up to source locations and binding names.

use vstd::prelude::*;
use crate::shape::{
    erased_class_members, erased_elements, erased_enum_members, erased_fn_params, erased_opt_type,
    erased_opt_type_params, erased_signatures, erased_type_params, erased_types,
};
use crate::ty::{
    class_member_views, element_views, enum_member_views, fn_param_views, opt_type_param_views,
    opt_type_view, signature_views, type_param_views, type_views, Class, ClassMember, Enum,
    EnumMember, FnParam, Key, Lit, Signature, Type, TypeElement, TypeParam,
};

verus! {

/// Whether two sequences of types agree, element by element, once blanked.
pub fn types_eq(a: &Vec<Type>, b: &Vec<Type>, names: bool) -> (r: bool)
    ensures
        r == (erased_types(type_views(a@), names) == erased_types(type_views(b@), names)),
    decreases *a,
{
    let ghost ea = erased_types(type_views(a@), names);
    let ghost eb = erased_types(type_views(b@), names);
    if a.len() != b.len() {
        assert(ea.len() != eb.len());
        return false;
    }
    let mut i: usize = 0;
    while i < a.len()
        invariant
            i <= a.len(),
            a.len() == b.len(),
            ea == erased_types(type_views(a@), names),
            eb == erased_types(type_views(b@), names),
            forall|j: int| 0 <= j < i ==> ea[j] == eb[j],
        decreases a.len() - i,
    {
        let same = type_eq(&a[i], &b[i], names);
        assert(ea[i as int] == a@[i as int]@.erased(names));
        assert(eb[i as int] == b@[i as int]@.erased(names));
        if !same {
            return false;
        }
        i += 1;
    }
    assert(ea =~= eb);
    true
}

/// Whether two parameter lists agree, element by element, once blanked.
pub fn fn_params_eq(a: &Vec<FnParam>, b: &Vec<FnParam>, names: bool) -> (r: bool)
    ensures
        r == (erased_fn_params(fn_param_views(a@), names) == erased_fn_params(
            fn_param_views(b@),
            names,
        )),
    decreases *a,
{
    let ghost ea = erased_fn_params(fn_param_views(a@), names);
    let ghost eb = erased_fn_params(fn_param_views(b@), names);
    if a.len() != b.len() {
        assert(ea.len() != eb.len());
        return false;
    }
    let mut i: usize = 0;
    while i < a.len()
        invariant
            i <= a.len(),
            a.len() == b.len(),
            ea == erased_fn_params(fn_param_views(a@), names),
            eb == erased_fn_params(fn_param_views(b@), names),
            forall|j: int| 0 <= j < i ==> ea[j] == eb[j],
        decreases a.len() - i,
    {
        let same = fn_param_eq(&a[i], &b[i], names);
        assert(ea[i as int] == a@[i as int]@.erased(names));
        assert(eb[i as int] == b@[i as int]@.erased(names));
        if !same {
            return false;
        }
        i += 1;
    }
    assert(ea =~= eb);
    true
}

/// Whether two lists of type parameters agree, element by element, once blanked.
pub fn type_params_eq(a: &Vec<TypeParam>, b: &Vec<TypeParam>, names: bool) -> (r: bool)
    ensures
        r == (erased_type_params(type_param_views(a@), names) == erased_type_params(
            type_param_views(b@),
            names,
        )),
    decreases *a,
{
    let ghost ea = erased_type_params(type_param_views(a@), names);
    let ghost eb = erased_type_params(type_param_views(b@), names);
    if a.len() != b.len() {
        assert(ea.len() != eb.len());
        return false;
    }
    let mut i: usize = 0;
    while i < a.len()
        invariant
            i <= a.len(),
            a.len() == b.len(),
            ea == erased_type_params(type_param_views(a@), names),
            eb == erased_type_params(type_param_views(b@), names),
            forall|j: int| 0 <= j < i ==> ea[j] == eb[j],
        decreases a.len() - i,
    {
        let same = type_param_eq(&a[i], &b[i], names);
        assert(ea[i as int] == a@[i as int]@.erased(names));
        assert(eb[i as int] == b@[i as int]@.erased(names));
        if !same {
            return false;
        }
        i += 1;
    }
    assert(ea =~= eb);
    true
}

/// Whether two lists of signatures agree, element by element, once blanked.
pub fn signatures_eq(a: &Vec<Signature>, b: &Vec<Signature>, names: bool) -> (r: bool)
    ensures
        r == (erased_signatures(signature_views(a@), names) == erased_signatures(
            signature_views(b@),
            names,
        )),
    decreases *a,
{
    let ghost ea = erased_signatures(signature_views(a@), names);
    let ghost eb = erased_signatures(signature_views(b@), names);
    if a.len() != b.len() {
        assert(ea.len() != eb.len());
        return false;
    }
    let mut i: usize = 0;
    while i < a.len()
        invariant
            i <= a.len(),
            a.len() == b.len(),
            ea == erased_signatures(signature_views(a@), names),
            eb == erased_signatures(signature_views(b@), names),
            forall|j: int| 0 <= j < i ==> ea[j] == eb[j],
        decreases a.len() - i,
    {
        let same = signature_eq(&a[i], &b[i], names);
        assert(ea[i as int] == a@[i as int]@.erased(names));
        assert(eb[i as int] == b@[i as int]@.erased(names));
        if !same {
            return false;
        }
        i += 1;
    }
    assert(ea =~= eb);
    true
}

/// Whether two member lists agree, element by element, once blanked.
pub fn elements_eq(a: &Vec<TypeElement>, b: &Vec<TypeElement>, names: bool) -> (r: bool)
    ensures
        r == (erased_elements(element_views(a@), names) == erased_elements(
            element_views(b@),
            names,
        )),
    decreases *a,
{
    let ghost ea = erased_elements(element_views(a@), names);
    let ghost eb = erased_elements(element_views(b@), names);
    if a.len() != b.len() {
        assert(ea.len() != eb.len());
        return false;
    }
    let mut i: usize = 0;
    while i < a.len()
        invariant
            i <= a.len(),
            a.len() == b.len(),
            ea == erased_elements(element_views(a@), names),
            eb == erased_elements(element_views(b@), names),
            forall|j: int| 0 <= j < i ==> ea[j] == eb[j],
        decreases a.len() - i,
    {
        let same = element_eq(&a[i], &b[i], names);
        assert(ea[i as int] == a@[i as int]@.erased(names));
        assert(eb[i as int] == b@[i as int]@.erased(names));
        if !same {
            return false;
        }
        i += 1;
    }
    assert(ea =~= eb);
    true
}

/// Whether two class bodies agree, element by element, once blanked.
pub fn class_members_eq(a: &Vec<ClassMember>, b: &Vec<ClassMember>, names: bool) -> (r: bool)
    ensures
        r == (erased_class_members(class_member_views(a@), names) == erased_class_members(
            class_member_views(b@),
            names,
        )),
    decreases *a,
{
    let ghost ea = erased_class_members(class_member_views(a@), names);
    let ghost eb = erased_class_members(class_member_views(b@), names);
    if a.len() != b.len() {
        assert(ea.len() != eb.len());
        return false;
    }
    let mut i: usize = 0;
    while i < a.len()
        invariant
            i <= a.len(),
            a.len() == b.len(),
            ea == erased_class_members(class_member_views(a@), names),
            eb == erased_class_members(class_member_views(b@), names),
            forall|j: int| 0 <= j < i ==> ea[j] == eb[j],
        decreases a.len() - i,
    {
        let same = class_member_eq(&a[i], &b[i], names);
        assert(ea[i as int] == a@[i as int]@.erased(names));
        assert(eb[i as int] == b@[i as int]@.erased(names));
        if !same {
            return false;
        }
        i += 1;
    }
    assert(ea =~= eb);
    true
}

/// Whether two literals agree once their locations are blanked.
pub fn lit_eq(a: &Lit, b: &Lit) -> (r: bool)
    ensures
        r == (a@.erased() == b@.erased()),
{
    match a {
        Lit::Str { value: v1, has_escape: e1, .. } => match b {
            Lit::Str { value: v2, has_escape: e2, .. } => v1.same(v2) && *e1 == *e2,
            _ => false,
        },
        Lit::Number { text: t1, .. } => match b {
            Lit::Number { text: t2, .. } => t1.same(t2),
            _ => false,
        },
        Lit::Bool { value: v1, .. } => match b {
            Lit::Bool { value: v2, .. } => *v1 == *v2,
            _ => false,
        },
    }
}

/// Whether two keys agree once their locations are blanked.
pub fn key_eq(a: &Key, b: &Key) -> (r: bool)
    ensures
        r == (a@.erased() == b@.erased()),
{
    match a {
        Key::Ident { sym: s1, .. } => match b {
            Key::Ident { sym: s2, .. } => s1.same(s2),
            _ => false,
        },
        Key::Str { value: v1, .. } => match b {
            Key::Str { value: v2, .. } => v1.same(v2),
            _ => false,
        },
        Key::Num { text: t1, .. } => match b {
            Key::Num { text: t2, .. } => t1.same(t2),
            _ => false,
        },
        Key::Computed { expr: e1, .. } => match b {
            Key::Computed { expr: e2, .. } => e1.same(e2),
            _ => false,
        },
    }
}

/// Whether two enum members agree once their locations are blanked.
pub fn enum_member_eq(a: &EnumMember, b: &EnumMember) -> (r: bool)
    ensures
        r == (a@.erased() == b@.erased()),
{
    if !a.name.same(&b.name) {
        return false;
    }
    match &a.init {
        Some(l1) => match &b.init {
            Some(l2) => lit_eq(l1, l2),
            None => false,
        },
        None => match &b.init {
            Some(_) => false,
            None => true,
        },
    }
}

/// Whether two enums agree once their locations are blanked.
pub fn enum_eq(a: &Enum, b: &Enum) -> (r: bool)
    ensures
        r == (a@.erased() == b@.erased()),
{
    let ghost ea = erased_enum_members(enum_member_views(a.members@));
    let ghost eb = erased_enum_members(enum_member_views(b.members@));
    if !a.id.same(&b.id) {
        return false;
    }
    if a.members.len() != b.members.len() {
        assert(ea.len() != eb.len());
        return false;
    }
    let mut i: usize = 0;
    while i < a.members.len()
        invariant
            i <= a.members.len(),
            a.members.len() == b.members.len(),
            ea == erased_enum_members(enum_member_views(a.members@)),
            eb == erased_enum_members(enum_member_views(b.members@)),
            forall|j: int| 0 <= j < i ==> ea[j] == eb[j],
        decreases a.members.len() - i,
    {
        let same = enum_member_eq(&a.members[i], &b.members[i]);
        assert(ea[i as int] == a.members@[i as int]@.erased());
        assert(eb[i as int] == b.members@[i as int]@.erased());
        if !same {
            return false;
        }
        i += 1;
    }
    assert(ea =~= eb);
    true
}

/// Whether two optional types agree once blanked.
pub fn opt_type_eq(a: &Option<Box<Type>>, b: &Option<Box<Type>>, names: bool) -> (r: bool)
    ensures
        r == (erased_opt_type(opt_type_view(*a), names) == erased_opt_type(
            opt_type_view(*b),
            names,
        )),
    decreases *a,
{
    match a {
        Some(t1) => match b {
            Some(t2) => type_eq(t1, t2, names),
            None => false,
        },
        None => match b {
            Some(_) => false,
            None => true,
        },
    }
}

/// Whether two optional lists of type parameters agree once blanked.
pub fn opt_type_params_eq(
    a: &Option<Vec<TypeParam>>,
    b: &Option<Vec<TypeParam>>,
    names: bool,
) -> (r: bool)
    ensures
        r == (erased_opt_type_params(opt_type_param_views(*a), names) == erased_opt_type_params(
            opt_type_param_views(*b),
            names,
        )),
    decreases *a,
{
    match a {
        Some(p1) => match b {
            Some(p2) => type_params_eq(p1, p2, names),
            None => false,
        },
        None => match b {
            Some(_) => false,
            None => true,
        },
    }
}

/// Whether two parameters agree once blanked.
pub fn fn_param_eq(a: &FnParam, b: &FnParam, names: bool) -> (r: bool)
    ensures
        r == (a@.erased(names) == b@.erased(names)),
    decreases *a,
{
    (names || a.name.same(&b.name)) && a.optional == b.optional && type_eq(&a.ty, &b.ty, names)
}

/// Whether two type parameters agree once blanked.
pub fn type_param_eq(a: &TypeParam, b: &TypeParam, names: bool) -> (r: bool)
    ensures
        r == (a@.erased(names) == b@.erased(names)),
    decreases *a,
{
    (names || a.name.same(&b.name)) && opt_type_eq(&a.constraint, &b.constraint, names)
        && opt_type_eq(&a.default, &b.default, names)
}

/// Whether two signatures agree once blanked.
pub fn signature_eq(a: &Signature, b: &Signature, names: bool) -> (r: bool)
    ensures
        r == (a@.erased(names) == b@.erased(names)),
    decreases *a,
{
    opt_type_params_eq(&a.type_params, &b.type_params, names) && fn_params_eq(
        &a.params,
        &b.params,
        names,
    ) && type_eq(&a.ret, &b.ret, names)
}

/// Whether two members of object-like types agree once blanked.
pub fn element_eq(a: &TypeElement, b: &TypeElement, names: bool) -> (r: bool)
    ensures
        r == (a@.erased(names) == b@.erased(names)),
    decreases *a,
{
    match a {
        TypeElement::Call { signatures: s1, .. } => match b {
            TypeElement::Call { signatures: s2, .. } => signatures_eq(s1, s2, names),
            _ => false,
        },
        TypeElement::Constructor { signatures: s1, .. } => match b {
            TypeElement::Constructor { signatures: s2, .. } => signatures_eq(s1, s2, names),
            _ => false,
        },
        TypeElement::Property { key: k1, optional: o1, ty: t1, .. } => match b {
            TypeElement::Property { key: k2, optional: o2, ty: t2, .. } => key_eq(k1, k2) && *o1
                == *o2 && opt_type_eq(t1, t2, names),
            _ => false,
        },
        TypeElement::Method { key: k1, signatures: s1, .. } => match b {
            TypeElement::Method { key: k2, signatures: s2, .. } => key_eq(k1, k2) && signatures_eq(
                s1,
                s2,
                names,
            ),
            _ => false,
        },
        TypeElement::Index { key_ty: k1, value_ty: v1, .. } => match b {
            TypeElement::Index { key_ty: k2, value_ty: v2, .. } => type_eq(k1, k2, names)
                && type_eq(v1, v2, names),
            _ => false,
        },
    }
}

/// Whether two class members agree once blanked.
pub fn class_member_eq(a: &ClassMember, b: &ClassMember, names: bool) -> (r: bool)
    ensures
        r == (a@.erased(names) == b@.erased(names)),
    decreases *a,
{
    match a {
        ClassMember::Constructor { signatures: s1, .. } => match b {
            ClassMember::Constructor { signatures: s2, .. } => signatures_eq(s1, s2, names),
            _ => false,
        },
        ClassMember::Method { key: k1, is_static: f1, signatures: s1, .. } => match b {
            ClassMember::Method { key: k2, is_static: f2, signatures: s2, .. } => key_eq(k1, k2)
                && *f1 == *f2 && signatures_eq(s1, s2, names),
            _ => false,
        },
        ClassMember::Property { key: k1, is_static: f1, ty: t1, .. } => match b {
            ClassMember::Property { key: k2, is_static: f2, ty: t2, .. } => key_eq(k1, k2) && *f1
                == *f2 && opt_type_eq(t1, t2, names),
            _ => false,
        },
        ClassMember::Accessor { key: k1, is_setter: f1, ty: t1, .. } => match b {
            ClassMember::Accessor { key: k2, is_setter: f2, ty: t2, .. } => key_eq(k1, k2) && *f1
                == *f2 && opt_type_eq(t1, t2, names),
            _ => false,
        },
    }
}

/// Whether two classes agree once blanked.
pub fn class_eq(a: &Class, b: &Class, names: bool) -> (r: bool)
    ensures
        r == (a@.erased(names) == b@.erased(names)),
    decreases *a,
{
    a.name.same(&b.name) && class_members_eq(&a.body, &b.body, names)
}

/// Whether two types agree once blanked.
pub fn type_eq(a: &Type, b: &Type, names: bool) -> (r: bool)
    ensures
        r == (a@.erased(names) == b@.erased(names)),
    decreases *a,
{
    match a {
        Type::Keyword { kind: k1, .. } => match b {
            Type::Keyword { kind: k2, .. } => *k1 == *k2,
            _ => false,
        },
        Type::Lit(l1) => match b {
            Type::Lit(l2) => lit_eq(l1, l2),
            _ => false,
        },
        Type::Array { elem: e1, .. } => match b {
            Type::Array { elem: e2, .. } => type_eq(e1, e2, names),
            _ => false,
        },
        Type::Tuple { elems: e1, .. } => match b {
            Type::Tuple { elems: e2, .. } => types_eq(e1, e2, names),
            _ => false,
        },
        Type::Union { types: t1, .. } => match b {
            Type::Union { types: t2, .. } => types_eq(t1, t2, names),
            _ => false,
        },
        Type::Intersection { types: t1, .. } => match b {
            Type::Intersection { types: t2, .. } => types_eq(t1, t2, names),
            _ => false,
        },
        Type::TypeLit { members: m1, .. } => match b {
            Type::TypeLit { members: m2, .. } => elements_eq(m1, m2, names),
            _ => false,
        },
        Type::Interface { name: n1, body: b1, extends: x1, .. } => match b {
            Type::Interface { name: n2, body: b2, extends: x2, .. } => (names || n1.same(n2))
                && elements_eq(b1, b2, names) && types_eq(x1, x2, names),
            _ => false,
        },
        Type::Class(c1) => match b {
            Type::Class(c2) => class_eq(c1, c2, names),
            _ => false,
        },
        Type::ClassInstance { cls: c1, type_args: a1, .. } => match b {
            Type::ClassInstance { cls: c2, type_args: a2, .. } => class_eq(c1, c2, names)
                && types_eq(a1, a2, names),
            _ => false,
        },
        Type::Function { sig: s1, .. } => match b {
            Type::Function { sig: s2, .. } => signature_eq(s1, s2, names),
            _ => false,
        },
        Type::Constructor { sig: s1, .. } => match b {
            Type::Constructor { sig: s2, .. } => signature_eq(s1, s2, names),
            _ => false,
        },
        Type::Param(p1) => match b {
            Type::Param(p2) => type_param_eq(p1, p2, names),
            _ => false,
        },
        Type::Enum(e1) => match b {
            Type::Enum(e2) => enum_eq(e1, e2),
            _ => false,
        },
        Type::EnumVariant { enum_name: e1, name: n1, .. } => match b {
            Type::EnumVariant { enum_name: e2, name: n2, .. } => e1.same(e2) && n1.same(n2),
            _ => false,
        },
        Type::This { .. } => match b {
            Type::This { .. } => true,
            _ => false,
        },
        Type::Predicate { param: p1, tested: t1, .. } => match b {
            Type::Predicate { param: p2, tested: t2, .. } => (names || p1.same(p2)) && type_eq(
                t1,
                t2,
                names,
            ),
            _ => false,
        },
        Type::Ref { name: n1, args: a1, .. } => match b {
            Type::Ref { name: n2, args: a2, .. } => n1.same(n2) && types_eq(a1, a2, names),
            _ => false,
        },
    }
}

impl Type {
    /// Equality that ignores source locations.
    pub fn eq_ignore_span(&self, other: &Type) -> (r: bool)
        ensures
            r == self@.same_ignoring_spans(other@),
    {
        type_eq(self, other, false)
    }

    /// Equality that ignores source locations and binding names.
    pub fn eq_ignore_name_and_span(&self, other: &Type) -> (r: bool)
        ensures
            r == self@.same_ignoring_names_and_spans(other@),
    {
        type_eq(self, other, true)
    }
}

} // verus!
