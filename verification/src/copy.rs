//! Deep copies.
//!
//! A diagnostic outlives the query that produced it, so it owns copies of
//! the types it quotes. A copy has the view of the type it was taken of.

use vstd::prelude::*;
use crate::ty::{
    class_member_view, class_member_views, element_view, element_views, enum_member_views,
    fn_param_view, fn_param_views, opt_type_param_views, opt_type_view, signature_view,
    signature_views, type_param_view, type_param_views, type_view, type_views, Class, ClassMember,
    Enum, EnumMember, FnParam, Key, Lit, Signature, Type, TypeElement, TypeParam,
};

verus! {

/// A deep copy of a literal.
pub fn copy_lit(a: &Lit) -> (r: Lit)
    ensures
        r@ == a@,
{
    match a {
        Lit::Str { span, value, has_escape } => Lit::Str {
            span: *span,
            value: value.clone(),
            has_escape: *has_escape,
        },
        Lit::Number { span, text } => Lit::Number { span: *span, text: text.clone() },
        Lit::Bool { span, value } => Lit::Bool { span: *span, value: *value },
    }
}

/// A deep copy of a key.
pub fn copy_key(a: &Key) -> (r: Key)
    ensures
        r@ == a@,
{
    match a {
        Key::Ident { span, sym } => Key::Ident { span: *span, sym: sym.clone() },
        Key::Str { span, value } => Key::Str { span: *span, value: value.clone() },
        Key::Num { span, text } => Key::Num { span: *span, text: text.clone() },
        Key::Computed { span, expr } => Key::Computed { span: *span, expr: expr.clone() },
    }
}

/// A deep copy of an enum member.
pub fn copy_enum_member(a: &EnumMember) -> (r: EnumMember)
    ensures
        r@ == a@,
{
    let init = match &a.init {
        Some(l) => Some(copy_lit(l)),
        None => None,
    };
    EnumMember { span: a.span, name: a.name.clone(), init }
}

/// A deep copy of an enum.
pub fn copy_enum(a: &Enum) -> (r: Enum)
    ensures
        r@ == a@,
{
    let mut members: Vec<EnumMember> = Vec::new();
    let mut i: usize = 0;
    while i < a.members.len()
        invariant
            i <= a.members.len(),
            members.len() == i,
            forall|j: int| 0 <= j < i ==> members@[j]@ == a.members@[j]@,
        decreases a.members.len() - i,
    {
        members.push(copy_enum_member(&a.members[i]));
        i += 1;
    }
    assert(enum_member_views(members@) =~= enum_member_views(a.members@));
    Enum { span: a.span, id: a.id.clone(), members }
}

/// A deep copy of a sequence of types.
pub fn copy_types(a: &Vec<Type>) -> (r: Vec<Type>)
    ensures
        type_views(r@) == type_views(a@),
    decreases *a,
{
    let mut out: Vec<Type> = Vec::new();
    let mut i: usize = 0;
    while i < a.len()
        invariant
            i <= a.len(),
            out.len() == i,
            forall|j: int| 0 <= j < i ==> type_view(out@[j]) == type_view(a@[j]),
        decreases a.len() - i,
    {
        out.push(copy_type(&a[i]));
        i += 1;
    }
    assert(type_views(out@) =~= type_views(a@));
    out
}

/// A deep copy of a parameter list.
pub fn copy_fn_params(a: &Vec<FnParam>) -> (r: Vec<FnParam>)
    ensures
        fn_param_views(r@) == fn_param_views(a@),
    decreases *a,
{
    let mut out: Vec<FnParam> = Vec::new();
    let mut i: usize = 0;
    while i < a.len()
        invariant
            i <= a.len(),
            out.len() == i,
            forall|j: int| 0 <= j < i ==> fn_param_view(out@[j]) == fn_param_view(a@[j]),
        decreases a.len() - i,
    {
        out.push(copy_fn_param(&a[i]));
        i += 1;
    }
    assert(fn_param_views(out@) =~= fn_param_views(a@));
    out
}

/// A deep copy of a list of type parameters.
pub fn copy_type_params(a: &Vec<TypeParam>) -> (r: Vec<TypeParam>)
    ensures
        type_param_views(r@) == type_param_views(a@),
    decreases *a,
{
    let mut out: Vec<TypeParam> = Vec::new();
    let mut i: usize = 0;
    while i < a.len()
        invariant
            i <= a.len(),
            out.len() == i,
            forall|j: int| 0 <= j < i ==> type_param_view(out@[j]) == type_param_view(a@[j]),
        decreases a.len() - i,
    {
        out.push(copy_type_param(&a[i]));
        i += 1;
    }
    assert(type_param_views(out@) =~= type_param_views(a@));
    out
}

/// A deep copy of a list of signatures.
pub fn copy_signatures(a: &Vec<Signature>) -> (r: Vec<Signature>)
    ensures
        signature_views(r@) == signature_views(a@),
    decreases *a,
{
    let mut out: Vec<Signature> = Vec::new();
    let mut i: usize = 0;
    while i < a.len()
        invariant
            i <= a.len(),
            out.len() == i,
            forall|j: int| 0 <= j < i ==> signature_view(out@[j]) == signature_view(a@[j]),
        decreases a.len() - i,
    {
        out.push(copy_signature(&a[i]));
        i += 1;
    }
    assert(signature_views(out@) =~= signature_views(a@));
    out
}

/// A deep copy of a member list.
pub fn copy_elements(a: &Vec<TypeElement>) -> (r: Vec<TypeElement>)
    ensures
        element_views(r@) == element_views(a@),
    decreases *a,
{
    let mut out: Vec<TypeElement> = Vec::new();
    let mut i: usize = 0;
    while i < a.len()
        invariant
            i <= a.len(),
            out.len() == i,
            forall|j: int| 0 <= j < i ==> element_view(out@[j]) == element_view(a@[j]),
        decreases a.len() - i,
    {
        out.push(copy_element(&a[i]));
        i += 1;
    }
    assert(element_views(out@) =~= element_views(a@));
    out
}

/// A deep copy of a class body.
pub fn copy_class_members(a: &Vec<ClassMember>) -> (r: Vec<ClassMember>)
    ensures
        class_member_views(r@) == class_member_views(a@),
    decreases *a,
{
    let mut out: Vec<ClassMember> = Vec::new();
    let mut i: usize = 0;
    while i < a.len()
        invariant
            i <= a.len(),
            out.len() == i,
            forall|j: int| 0 <= j < i ==> class_member_view(out@[j]) == class_member_view(a@[j]),
        decreases a.len() - i,
    {
        out.push(copy_class_member(&a[i]));
        i += 1;
    }
    assert(class_member_views(out@) =~= class_member_views(a@));
    out
}

/// A deep copy of an optional type.
pub fn copy_opt_type(a: &Option<Box<Type>>) -> (r: Option<Box<Type>>)
    ensures
        opt_type_view(r) == opt_type_view(*a),
    decreases *a,
{
    match a {
        Some(t) => Some(Box::new(copy_type(t))),
        None => None,
    }
}

/// A deep copy of an optional list of type parameters.
pub fn copy_opt_type_params(a: &Option<Vec<TypeParam>>) -> (r: Option<Vec<TypeParam>>)
    ensures
        opt_type_param_views(r) == opt_type_param_views(*a),
    decreases *a,
{
    match a {
        Some(ps) => Some(copy_type_params(ps)),
        None => None,
    }
}

/// A deep copy of a parameter.
pub fn copy_fn_param(a: &FnParam) -> (r: FnParam)
    ensures
        r@ == a@,
    decreases *a,
{
    FnParam { span: a.span, name: a.name.clone(), optional: a.optional, ty: copy_type(&a.ty) }
}

/// A deep copy of a type parameter.
pub fn copy_type_param(a: &TypeParam) -> (r: TypeParam)
    ensures
        r@ == a@,
    decreases *a,
{
    TypeParam {
        span: a.span,
        name: a.name.clone(),
        constraint: copy_opt_type(&a.constraint),
        default: copy_opt_type(&a.default),
    }
}

/// A deep copy of a signature.
pub fn copy_signature(a: &Signature) -> (r: Signature)
    ensures
        r@ == a@,
    decreases *a,
{
    Signature {
        type_params: copy_opt_type_params(&a.type_params),
        params: copy_fn_params(&a.params),
        ret: Box::new(copy_type(&a.ret)),
    }
}

/// A deep copy of a member of an object-like type.
pub fn copy_element(a: &TypeElement) -> (r: TypeElement)
    ensures
        r@ == a@,
    decreases *a,
{
    match a {
        TypeElement::Call { span, signatures } => TypeElement::Call {
            span: *span,
            signatures: copy_signatures(signatures),
        },
        TypeElement::Constructor { span, signatures } => TypeElement::Constructor {
            span: *span,
            signatures: copy_signatures(signatures),
        },
        TypeElement::Property { span, key, optional, ty } => TypeElement::Property {
            span: *span,
            key: copy_key(key),
            optional: *optional,
            ty: copy_opt_type(ty),
        },
        TypeElement::Method { span, key, signatures } => TypeElement::Method {
            span: *span,
            key: copy_key(key),
            signatures: copy_signatures(signatures),
        },
        TypeElement::Index { span, key_ty, value_ty } => TypeElement::Index {
            span: *span,
            key_ty: Box::new(copy_type(key_ty)),
            value_ty: Box::new(copy_type(value_ty)),
        },
    }
}

/// A deep copy of a class member.
pub fn copy_class_member(a: &ClassMember) -> (r: ClassMember)
    ensures
        r@ == a@,
    decreases *a,
{
    match a {
        ClassMember::Constructor { span, signatures } => ClassMember::Constructor {
            span: *span,
            signatures: copy_signatures(signatures),
        },
        ClassMember::Method { span, key, is_static, signatures } => ClassMember::Method {
            span: *span,
            key: copy_key(key),
            is_static: *is_static,
            signatures: copy_signatures(signatures),
        },
        ClassMember::Property { span, key, is_static, ty } => ClassMember::Property {
            span: *span,
            key: copy_key(key),
            is_static: *is_static,
            ty: copy_opt_type(ty),
        },
        ClassMember::Accessor { span, key, is_setter, ty } => ClassMember::Accessor {
            span: *span,
            key: copy_key(key),
            is_setter: *is_setter,
            ty: copy_opt_type(ty),
        },
    }
}

/// A deep copy of a class.
pub fn copy_class(a: &Class) -> (r: Class)
    ensures
        r@ == a@,
    decreases *a,
{
    Class { span: a.span, name: a.name.clone(), body: copy_class_members(&a.body) }
}

/// A deep copy of a type.
pub fn copy_type(a: &Type) -> (r: Type)
    ensures
        r@ == a@,
    decreases *a,
{
    match a {
        Type::Keyword { span, kind } => Type::Keyword { span: *span, kind: *kind },
        Type::Lit(l) => Type::Lit(copy_lit(l)),
        Type::Array { span, elem } => Type::Array { span: *span, elem: Box::new(copy_type(elem)) },
        Type::Tuple { span, elems } => Type::Tuple { span: *span, elems: copy_types(elems) },
        Type::Union { span, types } => Type::Union { span: *span, types: copy_types(types) },
        Type::Intersection { span, types } => Type::Intersection {
            span: *span,
            types: copy_types(types),
        },
        Type::TypeLit { span, members } => Type::TypeLit {
            span: *span,
            members: copy_elements(members),
        },
        Type::Interface { span, name, body, extends } => Type::Interface {
            span: *span,
            name: name.clone(),
            body: copy_elements(body),
            extends: copy_types(extends),
        },
        Type::Class(c) => Type::Class(copy_class(c)),
        Type::ClassInstance { span, cls, type_args } => Type::ClassInstance {
            span: *span,
            cls: copy_class(cls),
            type_args: copy_types(type_args),
        },
        Type::Function { span, sig } => Type::Function { span: *span, sig: copy_signature(sig) },
        Type::Constructor { span, sig } => Type::Constructor {
            span: *span,
            sig: copy_signature(sig),
        },
        Type::Param(p) => Type::Param(copy_type_param(p)),
        Type::Enum(e) => Type::Enum(copy_enum(e)),
        Type::EnumVariant { span, enum_name, name } => Type::EnumVariant {
            span: *span,
            enum_name: enum_name.clone(),
            name: name.clone(),
        },
        Type::This { span } => Type::This { span: *span },
        Type::Predicate { span, param, tested } => Type::Predicate {
            span: *span,
            param: param.clone(),
            tested: Box::new(copy_type(tested)),
        },
        Type::Ref { span, name, args } => Type::Ref {
            span: *span,
            name: name.clone(),
            args: copy_types(args),
        },
    }
}

impl Type {
    /// A deep copy, which owns all of its parts.
    pub fn to_static(&self) -> (r: Type)
        ensures
            r@ == self@,
    {
        copy_type(self)
    }
}

impl TypeElement {
    /// A deep copy, which owns all of its parts.
    pub fn to_static(&self) -> (r: TypeElement)
        ensures
            r@ == self@,
    {
        copy_element(self)
    }
}

} // verus!
