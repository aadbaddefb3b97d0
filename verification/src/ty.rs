//! The type algebra.
//!
//! The executable types own their parts (`Vec`, `Box`, [`Symbol`]). Each has
//! a mathematical view in which sequences are `Seq`, names are their text and
//! nothing is boxed for ownership's sake; every contract of the crate speaks
//! of those views. Source locations stay in the views: diagnostics quote
//! them, and the rules that must ignore them say so themselves.

use vstd::prelude::*;
use swc_common::Span;
use crate::symbol::Symbol;

verus! {

/// A source location of `swc_common`. It is carried into diagnostics and
/// never looked into.
#[verifier::external_type_specification]
#[verifier::external_body]
pub struct ExSpan(Span);

/// The keyword primitives.
#[derive(Clone, Copy, Debug, PartialEq, Eq, Structural)]
pub enum KeywordKind {
    Any,
    Unknown,
    Str,
    Number,
    Boolean,
    Object,
    Void,
    Undefined,
    Null,
    Never,
    Sym,
    BigInt,
}

/// A literal type. A number is held by its canonical decimal text.
#[allow(inconsistent_fields)]
#[derive(Debug, PartialEq, Eq)]
pub enum Lit {
    Str { span: Span, value: Symbol, has_escape: bool },
    Number { span: Span, text: Symbol },
    Bool { span: Span, value: bool },
}

/// The key of a property or method.
#[derive(Debug, PartialEq, Eq)]
pub enum Key {
    Ident { span: Span, sym: Symbol },
    Str { span: Span, value: Symbol },
    Num { span: Span, text: Symbol },
    /// A computed key, held by the canonical text of its expression.
    Computed { span: Span, expr: Symbol },
}

/// A parameter of a signature.
#[derive(Debug, PartialEq, Eq)]
pub struct FnParam {
    pub span: Span,
    pub name: Symbol,
    pub optional: bool,
    pub ty: Type,
}

/// A type parameter: where it is declared, and where it is referred to.
#[derive(Debug, PartialEq, Eq)]
pub struct TypeParam {
    pub span: Span,
    pub name: Symbol,
    pub constraint: Option<Box<Type>>,
    pub default: Option<Box<Type>>,
}

/// What a callable or newable takes and gives.
#[derive(Debug, PartialEq, Eq)]
pub struct Signature {
    pub type_params: Option<Vec<TypeParam>>,
    pub params: Vec<FnParam>,
    pub ret: Box<Type>,
}

/// A member of an object-like type.
#[derive(Debug, PartialEq, Eq)]
pub enum TypeElement {
    Call { span: Span, signatures: Vec<Signature> },
    Constructor { span: Span, signatures: Vec<Signature> },
    Property { span: Span, key: Key, optional: bool, ty: Option<Box<Type>> },
    Method { span: Span, key: Key, signatures: Vec<Signature> },
    Index { span: Span, key_ty: Box<Type>, value_ty: Box<Type> },
}

/// A member of a class.
#[derive(Debug, PartialEq, Eq)]
pub enum ClassMember {
    Constructor { span: Span, signatures: Vec<Signature> },
    Method { span: Span, key: Key, is_static: bool, signatures: Vec<Signature> },
    Property { span: Span, key: Key, is_static: bool, ty: Option<Box<Type>> },
    Accessor { span: Span, key: Key, is_setter: bool, ty: Option<Box<Type>> },
}

/// A class: the type of its constructor, not of its instances.
#[derive(Debug, PartialEq, Eq)]
pub struct Class {
    pub span: Span,
    pub name: Symbol,
    pub body: Vec<ClassMember>,
}

/// A member of an enum, with the value its initializer gives where it has
/// one.
#[derive(Debug, PartialEq, Eq)]
pub struct EnumMember {
    pub span: Span,
    pub name: Symbol,
    pub init: Option<Lit>,
}

/// An enum declaration.
#[derive(Debug, PartialEq, Eq)]
pub struct Enum {
    pub span: Span,
    pub id: Symbol,
    pub members: Vec<EnumMember>,
}

/// A type.
#[derive(Debug, PartialEq, Eq)]
pub enum Type {
    Keyword { span: Span, kind: KeywordKind },
    Lit(Lit),
    Array { span: Span, elem: Box<Type> },
    Tuple { span: Span, elems: Vec<Type> },
    Union { span: Span, types: Vec<Type> },
    Intersection { span: Span, types: Vec<Type> },
    TypeLit { span: Span, members: Vec<TypeElement> },
    Interface { span: Span, name: Symbol, body: Vec<TypeElement>, extends: Vec<Type> },
    Class(Class),
    ClassInstance { span: Span, cls: Class, type_args: Vec<Type> },
    Function { span: Span, sig: Signature },
    Constructor { span: Span, sig: Signature },
    Param(TypeParam),
    Enum(Enum),
    EnumVariant { span: Span, enum_name: Symbol, name: Symbol },
    This { span: Span },
    Predicate { span: Span, param: Symbol, tested: Box<Type> },
    /// A reference that was left unresolved.
    Ref { span: Span, name: Symbol, args: Vec<Type> },
}

/// The view of a [`Lit`].
#[allow(inconsistent_fields)]
pub enum LitView {
    Str { span: Span, value: Seq<char>, has_escape: bool },
    Number { span: Span, text: Seq<char> },
    Bool { span: Span, value: bool },
}

/// The view of a [`Key`].
pub enum KeyView {
    Ident { span: Span, sym: Seq<char> },
    Str { span: Span, value: Seq<char> },
    Num { span: Span, text: Seq<char> },
    Computed { span: Span, expr: Seq<char> },
}

/// The view of a [`FnParam`].
pub struct FnParamView {
    pub span: Span,
    pub name: Seq<char>,
    pub optional: bool,
    pub ty: Box<TypeView>,
}

/// The view of a [`TypeParam`].
pub struct TypeParamView {
    pub span: Span,
    pub name: Seq<char>,
    pub constraint: Option<Box<TypeView>>,
    pub default: Option<Box<TypeView>>,
}

/// The view of a [`Signature`].
pub struct SignatureView {
    pub type_params: Option<Seq<TypeParamView>>,
    pub params: Seq<FnParamView>,
    pub ret: Box<TypeView>,
}

/// The view of a [`TypeElement`].
pub enum TypeElementView {
    Call { span: Span, signatures: Seq<SignatureView> },
    Constructor { span: Span, signatures: Seq<SignatureView> },
    Property { span: Span, key: KeyView, optional: bool, ty: Option<Box<TypeView>> },
    Method { span: Span, key: KeyView, signatures: Seq<SignatureView> },
    Index { span: Span, key_ty: Box<TypeView>, value_ty: Box<TypeView> },
}

/// The view of a [`ClassMember`].
pub enum ClassMemberView {
    Constructor { span: Span, signatures: Seq<SignatureView> },
    Method { span: Span, key: KeyView, is_static: bool, signatures: Seq<SignatureView> },
    Property { span: Span, key: KeyView, is_static: bool, ty: Option<Box<TypeView>> },
    Accessor { span: Span, key: KeyView, is_setter: bool, ty: Option<Box<TypeView>> },
}

/// The view of a [`Class`].
pub struct ClassView {
    pub span: Span,
    pub name: Seq<char>,
    pub body: Seq<ClassMemberView>,
}

/// The view of an [`EnumMember`].
pub struct EnumMemberView {
    pub span: Span,
    pub name: Seq<char>,
    pub init: Option<LitView>,
}

/// The view of an [`Enum`].
pub struct EnumView {
    pub span: Span,
    pub id: Seq<char>,
    pub members: Seq<EnumMemberView>,
}

/// The view of a [`Type`].
pub enum TypeView {
    Keyword { span: Span, kind: KeywordKind },
    Lit(LitView),
    Array { span: Span, elem: Box<TypeView> },
    Tuple { span: Span, elems: Seq<TypeView> },
    Union { span: Span, types: Seq<TypeView> },
    Intersection { span: Span, types: Seq<TypeView> },
    TypeLit { span: Span, members: Seq<TypeElementView> },
    Interface { span: Span, name: Seq<char>, body: Seq<TypeElementView>, extends: Seq<TypeView> },
    Class(ClassView),
    ClassInstance { span: Span, cls: ClassView, type_args: Seq<TypeView> },
    Function { span: Span, sig: SignatureView },
    Constructor { span: Span, sig: SignatureView },
    Param(TypeParamView),
    Enum(EnumView),
    EnumVariant { span: Span, enum_name: Seq<char>, name: Seq<char> },
    This { span: Span },
    Predicate { span: Span, param: Seq<char>, tested: Box<TypeView> },
    Ref { span: Span, name: Seq<char>, args: Seq<TypeView> },
}

impl View for Lit {
    type V = LitView;

    open spec fn view(&self) -> LitView {
        match *self {
            Lit::Str { span, value, has_escape } => LitView::Str { span, value: value@, has_escape },
            Lit::Number { span, text } => LitView::Number { span, text: text@ },
            Lit::Bool { span, value } => LitView::Bool { span, value },
        }
    }
}

impl View for Key {
    type V = KeyView;

    open spec fn view(&self) -> KeyView {
        match *self {
            Key::Ident { span, sym } => KeyView::Ident { span, sym: sym@ },
            Key::Str { span, value } => KeyView::Str { span, value: value@ },
            Key::Num { span, text } => KeyView::Num { span, text: text@ },
            Key::Computed { span, expr } => KeyView::Computed { span, expr: expr@ },
        }
    }
}

impl View for EnumMember {
    type V = EnumMemberView;

    open spec fn view(&self) -> EnumMemberView {
        EnumMemberView {
            span: self.span,
            name: self.name@,
            init: match self.init {
                Some(l) => Some(l@),
                None => None,
            },
        }
    }
}

/// The views of the members of an enum, in order.
pub open spec fn enum_member_views(ms: Seq<EnumMember>) -> Seq<EnumMemberView> {
    Seq::new(ms.len(), |i: int| ms[i]@)
}

impl View for Enum {
    type V = EnumView;

    open spec fn view(&self) -> EnumView {
        EnumView { span: self.span, id: self.id@, members: enum_member_views(self.members@) }
    }
}

/// The view of an optional boxed type.
pub open spec fn opt_type_view(t: Option<Box<Type>>) -> Option<Box<TypeView>>
    decreases t,
{
    match t {
        Some(b) => Some(Box::new(type_view(*b))),
        None => None,
    }
}

/// The views of a sequence of types, in order.
pub open spec fn type_views(xs: Seq<Type>) -> Seq<TypeView>
    decreases xs,
{
    Seq::new(
        xs.len(),
        |i: int|
            if 0 <= i < xs.len() {
                type_view(xs[i])
            } else {
                arbitrary()
            },
    )
}

/// The views of the parameters of a signature, in order.
pub open spec fn fn_param_views(xs: Seq<FnParam>) -> Seq<FnParamView>
    decreases xs,
{
    Seq::new(
        xs.len(),
        |i: int|
            if 0 <= i < xs.len() {
                fn_param_view(xs[i])
            } else {
                arbitrary()
            },
    )
}

/// The views of a list of type parameters, in order.
pub open spec fn type_param_views(xs: Seq<TypeParam>) -> Seq<TypeParamView>
    decreases xs,
{
    Seq::new(
        xs.len(),
        |i: int|
            if 0 <= i < xs.len() {
                type_param_view(xs[i])
            } else {
                arbitrary()
            },
    )
}

/// The view of an optional list of type parameters.
pub open spec fn opt_type_param_views(ps: Option<Vec<TypeParam>>) -> Option<Seq<TypeParamView>>
    decreases ps,
{
    match ps {
        Some(v) => Some(type_param_views(v@)),
        None => None,
    }
}

/// The views of a list of signatures, in order.
pub open spec fn signature_views(xs: Seq<Signature>) -> Seq<SignatureView>
    decreases xs,
{
    Seq::new(
        xs.len(),
        |i: int|
            if 0 <= i < xs.len() {
                signature_view(xs[i])
            } else {
                arbitrary()
            },
    )
}

/// The views of the members of an object-like type, in order.
pub open spec fn element_views(xs: Seq<TypeElement>) -> Seq<TypeElementView>
    decreases xs,
{
    Seq::new(
        xs.len(),
        |i: int|
            if 0 <= i < xs.len() {
                element_view(xs[i])
            } else {
                arbitrary()
            },
    )
}

/// The views of the members of a class, in order.
pub open spec fn class_member_views(xs: Seq<ClassMember>) -> Seq<ClassMemberView>
    decreases xs,
{
    Seq::new(
        xs.len(),
        |i: int|
            if 0 <= i < xs.len() {
                class_member_view(xs[i])
            } else {
                arbitrary()
            },
    )
}

/// The mathematical view of a parameter.
pub open spec fn fn_param_view(p: FnParam) -> FnParamView
    decreases p,
{
    FnParamView { span: p.span, name: p.name@, optional: p.optional, ty: Box::new(type_view(p.ty)) }
}

/// The mathematical view of a type parameter.
pub open spec fn type_param_view(p: TypeParam) -> TypeParamView
    decreases p,
{
    TypeParamView {
        span: p.span,
        name: p.name@,
        constraint: opt_type_view(p.constraint),
        default: opt_type_view(p.default),
    }
}

/// The mathematical view of a signature.
pub open spec fn signature_view(s: Signature) -> SignatureView
    decreases s,
{
    SignatureView {
        type_params: opt_type_param_views(s.type_params),
        params: fn_param_views(s.params@),
        ret: Box::new(type_view(*s.ret)),
    }
}

/// The mathematical view of a member of an object-like type.
pub open spec fn element_view(m: TypeElement) -> TypeElementView
    decreases m,
{
    match m {
        TypeElement::Call { span, signatures } => TypeElementView::Call {
            span,
            signatures: signature_views(signatures@),
        },
        TypeElement::Constructor { span, signatures } => TypeElementView::Constructor {
            span,
            signatures: signature_views(signatures@),
        },
        TypeElement::Property { span, key, optional, ty } => TypeElementView::Property {
            span,
            key: key@,
            optional,
            ty: opt_type_view(ty),
        },
        TypeElement::Method { span, key, signatures } => TypeElementView::Method {
            span,
            key: key@,
            signatures: signature_views(signatures@),
        },
        TypeElement::Index { span, key_ty, value_ty } => TypeElementView::Index {
            span,
            key_ty: Box::new(type_view(*key_ty)),
            value_ty: Box::new(type_view(*value_ty)),
        },
    }
}

/// The mathematical view of a class member.
pub open spec fn class_member_view(m: ClassMember) -> ClassMemberView
    decreases m,
{
    match m {
        ClassMember::Constructor { span, signatures } => ClassMemberView::Constructor {
            span,
            signatures: signature_views(signatures@),
        },
        ClassMember::Method { span, key, is_static, signatures } => ClassMemberView::Method {
            span,
            key: key@,
            is_static,
            signatures: signature_views(signatures@),
        },
        ClassMember::Property { span, key, is_static, ty } => ClassMemberView::Property {
            span,
            key: key@,
            is_static,
            ty: opt_type_view(ty),
        },
        ClassMember::Accessor { span, key, is_setter, ty } => ClassMemberView::Accessor {
            span,
            key: key@,
            is_setter,
            ty: opt_type_view(ty),
        },
    }
}

/// The mathematical view of a class.
pub open spec fn class_view(c: Class) -> ClassView
    decreases c,
{
    ClassView { span: c.span, name: c.name@, body: class_member_views(c.body@) }
}

/// The mathematical view of a type.
pub open spec fn type_view(t: Type) -> TypeView
    decreases t,
{
    match t {
        Type::Keyword { span, kind } => TypeView::Keyword { span, kind },
        Type::Lit(l) => TypeView::Lit(l@),
        Type::Array { span, elem } => TypeView::Array { span, elem: Box::new(type_view(*elem)) },
        Type::Tuple { span, elems } => TypeView::Tuple { span, elems: type_views(elems@) },
        Type::Union { span, types } => TypeView::Union { span, types: type_views(types@) },
        Type::Intersection { span, types } => TypeView::Intersection {
            span,
            types: type_views(types@),
        },
        Type::TypeLit { span, members } => TypeView::TypeLit {
            span,
            members: element_views(members@),
        },
        Type::Interface { span, name, body, extends } => TypeView::Interface {
            span,
            name: name@,
            body: element_views(body@),
            extends: type_views(extends@),
        },
        Type::Class(c) => TypeView::Class(class_view(c)),
        Type::ClassInstance { span, cls, type_args } => TypeView::ClassInstance {
            span,
            cls: class_view(cls),
            type_args: type_views(type_args@),
        },
        Type::Function { span, sig } => TypeView::Function { span, sig: signature_view(sig) },
        Type::Constructor { span, sig } => TypeView::Constructor { span, sig: signature_view(sig) },
        Type::Param(p) => TypeView::Param(type_param_view(p)),
        Type::Enum(e) => TypeView::Enum(e@),
        Type::EnumVariant { span, enum_name, name } => TypeView::EnumVariant {
            span,
            enum_name: enum_name@,
            name: name@,
        },
        Type::This { span } => TypeView::This { span },
        Type::Predicate { span, param, tested } => TypeView::Predicate {
            span,
            param: param@,
            tested: Box::new(type_view(*tested)),
        },
        Type::Ref { span, name, args } => TypeView::Ref { span, name: name@, args: type_views(args@) },
    }
}

impl View for FnParam {
    type V = FnParamView;

    open spec fn view(&self) -> FnParamView {
        fn_param_view(*self)
    }
}

impl View for TypeParam {
    type V = TypeParamView;

    open spec fn view(&self) -> TypeParamView {
        type_param_view(*self)
    }
}

impl View for Signature {
    type V = SignatureView;

    open spec fn view(&self) -> SignatureView {
        signature_view(*self)
    }
}

impl View for TypeElement {
    type V = TypeElementView;

    open spec fn view(&self) -> TypeElementView {
        element_view(*self)
    }
}

impl View for ClassMember {
    type V = ClassMemberView;

    open spec fn view(&self) -> ClassMemberView {
        class_member_view(*self)
    }
}

impl View for Class {
    type V = ClassView;

    open spec fn view(&self) -> ClassView {
        class_view(*self)
    }
}

impl View for Type {
    type V = TypeView;

    open spec fn view(&self) -> TypeView {
        type_view(*self)
    }
}

} // verus!
