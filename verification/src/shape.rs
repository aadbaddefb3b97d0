//! Equality that ignores source locations, and optionally names.
//!
//! Two types are equal ignoring spans when their views agree once every
//! source location is blanked; they are equal ignoring names and spans when
//! the views agree once, besides, the names that only label a binding are
//! blanked: the name of an interface, of a type parameter, of a parameter of
//! a signature and of the parameter of a predicate. Keys, class names and
//! enum names are part of a type's structure and are kept.

use vstd::prelude::*;
use swc_common::Span;
use crate::ty::{
    ClassMemberView, ClassView, EnumMemberView, EnumView, FnParamView, KeyView, LitView,
    SignatureView, TypeElementView, TypeParamView, TypeView,
};

verus! {

/// The location that stands in for every location once they are blanked.
pub open spec fn blank_span() -> Span {
    arbitrary()
}

/// A name that is kept, or blanked where names are ignored.
pub open spec fn erased_name(name: Seq<char>, names: bool) -> Seq<char> {
    if names {
        Seq::empty()
    } else {
        name
    }
}

impl LitView {
    /// The value with every source location blanked.
    pub open spec fn erased(self) -> LitView {
        match self {
            LitView::Str { span, value, has_escape } => LitView::Str {
                span: blank_span(),
                value,
                has_escape,
            },
            LitView::Number { span, text } => LitView::Number { span: blank_span(), text },
            LitView::Bool { span, value } => LitView::Bool { span: blank_span(), value },
        }
    }
}

impl KeyView {
    /// The value with every source location blanked.
    pub open spec fn erased(self) -> KeyView {
        match self {
            KeyView::Ident { span, sym } => KeyView::Ident { span: blank_span(), sym },
            KeyView::Str { span, value } => KeyView::Str { span: blank_span(), value },
            KeyView::Num { span, text } => KeyView::Num { span: blank_span(), text },
            KeyView::Computed { span, expr } => KeyView::Computed { span: blank_span(), expr },
        }
    }
}

impl EnumMemberView {
    /// The value with every source location blanked.
    pub open spec fn erased(self) -> EnumMemberView {
        EnumMemberView {
            span: blank_span(),
            name: self.name,
            init: match self.init {
                Some(l) => Some(l.erased()),
                None => None,
            },
        }
    }
}

/// The sequence with each element blanked.
pub open spec fn erased_enum_members(ms: Seq<EnumMemberView>) -> Seq<EnumMemberView> {
    Seq::new(ms.len(), |i: int| ms[i].erased())
}

impl EnumView {
    /// The value with every source location blanked.
    pub open spec fn erased(self) -> EnumView {
        EnumView { span: blank_span(), id: self.id, members: erased_enum_members(self.members) }
    }
}

/// The optional part, blanked where there is one.
pub open spec fn erased_opt_type(t: Option<Box<TypeView>>, names: bool) -> Option<Box<TypeView>>
    decreases t,
{
    match t {
        Some(b) => Some(Box::new((*b).erased(names))),
        None => None,
    }
}

/// The sequence with each element blanked.
pub open spec fn erased_types(ts: Seq<TypeView>, names: bool) -> Seq<TypeView>
    decreases ts,
{
    Seq::new(
        ts.len(),
        |i: int|
            if 0 <= i < ts.len() {
                ts[i].erased(names)
            } else {
                arbitrary()
            },
    )
}

/// The sequence with each element blanked.
pub open spec fn erased_fn_params(ps: Seq<FnParamView>, names: bool) -> Seq<FnParamView>
    decreases ps,
{
    Seq::new(
        ps.len(),
        |i: int|
            if 0 <= i < ps.len() {
                ps[i].erased(names)
            } else {
                arbitrary()
            },
    )
}

/// The sequence with each element blanked.
pub open spec fn erased_type_params(ps: Seq<TypeParamView>, names: bool) -> Seq<TypeParamView>
    decreases ps,
{
    Seq::new(
        ps.len(),
        |i: int|
            if 0 <= i < ps.len() {
                ps[i].erased(names)
            } else {
                arbitrary()
            },
    )
}

/// The optional part, blanked where there is one.
pub open spec fn erased_opt_type_params(ps: Option<Seq<TypeParamView>>, names: bool) -> Option<
    Seq<TypeParamView>,
>
    decreases ps,
{
    match ps {
        Some(s) => Some(erased_type_params(s, names)),
        None => None,
    }
}

/// The sequence with each element blanked.
pub open spec fn erased_signatures(ss: Seq<SignatureView>, names: bool) -> Seq<SignatureView>
    decreases ss,
{
    Seq::new(
        ss.len(),
        |i: int|
            if 0 <= i < ss.len() {
                ss[i].erased(names)
            } else {
                arbitrary()
            },
    )
}

/// The sequence with each element blanked.
pub open spec fn erased_elements(ms: Seq<TypeElementView>, names: bool) -> Seq<TypeElementView>
    decreases ms,
{
    Seq::new(
        ms.len(),
        |i: int|
            if 0 <= i < ms.len() {
                ms[i].erased(names)
            } else {
                arbitrary()
            },
    )
}

/// The sequence with each element blanked.
pub open spec fn erased_class_members(ms: Seq<ClassMemberView>, names: bool) -> Seq<
    ClassMemberView,
>
    decreases ms,
{
    Seq::new(
        ms.len(),
        |i: int|
            if 0 <= i < ms.len() {
                ms[i].erased(names)
            } else {
                arbitrary()
            },
    )
}

impl FnParamView {
    /// The value with every source location blanked and, where `names`
    /// holds, every binding name too.
    pub open spec fn erased(self, names: bool) -> FnParamView
        decreases self,
    {
        FnParamView {
            span: blank_span(),
            name: erased_name(self.name, names),
            optional: self.optional,
            ty: Box::new((*self.ty).erased(names)),
        }
    }
}

impl TypeParamView {
    /// The value with every source location blanked and, where `names`
    /// holds, every binding name too.
    pub open spec fn erased(self, names: bool) -> TypeParamView
        decreases self,
    {
        TypeParamView {
            span: blank_span(),
            name: erased_name(self.name, names),
            constraint: erased_opt_type(self.constraint, names),
            default: erased_opt_type(self.default, names),
        }
    }
}

impl SignatureView {
    /// The value with every source location blanked and, where `names`
    /// holds, every binding name too.
    pub open spec fn erased(self, names: bool) -> SignatureView
        decreases self,
    {
        SignatureView {
            type_params: erased_opt_type_params(self.type_params, names),
            params: erased_fn_params(self.params, names),
            ret: Box::new((*self.ret).erased(names)),
        }
    }
}

impl TypeElementView {
    /// The value with every source location blanked and, where `names`
    /// holds, every binding name too.
    pub open spec fn erased(self, names: bool) -> TypeElementView
        decreases self,
    {
        match self {
            TypeElementView::Call { span, signatures } => TypeElementView::Call {
                span: blank_span(),
                signatures: erased_signatures(signatures, names),
            },
            TypeElementView::Constructor { span, signatures } => TypeElementView::Constructor {
                span: blank_span(),
                signatures: erased_signatures(signatures, names),
            },
            TypeElementView::Property { span, key, optional, ty } => TypeElementView::Property {
                span: blank_span(),
                key: key.erased(),
                optional,
                ty: erased_opt_type(ty, names),
            },
            TypeElementView::Method { span, key, signatures } => TypeElementView::Method {
                span: blank_span(),
                key: key.erased(),
                signatures: erased_signatures(signatures, names),
            },
            TypeElementView::Index { span, key_ty, value_ty } => TypeElementView::Index {
                span: blank_span(),
                key_ty: Box::new((*key_ty).erased(names)),
                value_ty: Box::new((*value_ty).erased(names)),
            },
        }
    }
}

impl ClassMemberView {
    /// The value with every source location blanked and, where `names`
    /// holds, every binding name too.
    pub open spec fn erased(self, names: bool) -> ClassMemberView
        decreases self,
    {
        match self {
            ClassMemberView::Constructor { span, signatures } => ClassMemberView::Constructor {
                span: blank_span(),
                signatures: erased_signatures(signatures, names),
            },
            ClassMemberView::Method { span, key, is_static, signatures } => ClassMemberView::Method {
                span: blank_span(),
                key: key.erased(),
                is_static,
                signatures: erased_signatures(signatures, names),
            },
            ClassMemberView::Property { span, key, is_static, ty } => ClassMemberView::Property {
                span: blank_span(),
                key: key.erased(),
                is_static,
                ty: erased_opt_type(ty, names),
            },
            ClassMemberView::Accessor { span, key, is_setter, ty } => ClassMemberView::Accessor {
                span: blank_span(),
                key: key.erased(),
                is_setter,
                ty: erased_opt_type(ty, names),
            },
        }
    }
}

impl ClassView {
    /// The value with every source location blanked and, where `names`
    /// holds, every binding name too.
    pub open spec fn erased(self, names: bool) -> ClassView
        decreases self,
    {
        ClassView {
            span: blank_span(),
            name: self.name,
            body: erased_class_members(self.body, names),
        }
    }
}

impl TypeView {
    /// The type with every source location blanked and, where `names` holds,
    /// every binding name too.
    pub open spec fn erased(self, names: bool) -> TypeView
        decreases self,
    {
        match self {
            TypeView::Keyword { span, kind } => TypeView::Keyword { span: blank_span(), kind },
            TypeView::Lit(l) => TypeView::Lit(l.erased()),
            TypeView::Array { span, elem } => TypeView::Array {
                span: blank_span(),
                elem: Box::new((*elem).erased(names)),
            },
            TypeView::Tuple { span, elems } => TypeView::Tuple {
                span: blank_span(),
                elems: erased_types(elems, names),
            },
            TypeView::Union { span, types } => TypeView::Union {
                span: blank_span(),
                types: erased_types(types, names),
            },
            TypeView::Intersection { span, types } => TypeView::Intersection {
                span: blank_span(),
                types: erased_types(types, names),
            },
            TypeView::TypeLit { span, members } => TypeView::TypeLit {
                span: blank_span(),
                members: erased_elements(members, names),
            },
            TypeView::Interface { span, name, body, extends } => TypeView::Interface {
                span: blank_span(),
                name: erased_name(name, names),
                body: erased_elements(body, names),
                extends: erased_types(extends, names),
            },
            TypeView::Class(c) => TypeView::Class(c.erased(names)),
            TypeView::ClassInstance { span, cls, type_args } => TypeView::ClassInstance {
                span: blank_span(),
                cls: cls.erased(names),
                type_args: erased_types(type_args, names),
            },
            TypeView::Function { span, sig } => TypeView::Function {
                span: blank_span(),
                sig: sig.erased(names),
            },
            TypeView::Constructor { span, sig } => TypeView::Constructor {
                span: blank_span(),
                sig: sig.erased(names),
            },
            TypeView::Param(p) => TypeView::Param(p.erased(names)),
            TypeView::Enum(e) => TypeView::Enum(e.erased()),
            TypeView::EnumVariant { span, enum_name, name } => TypeView::EnumVariant {
                span: blank_span(),
                enum_name,
                name,
            },
            TypeView::This { span } => TypeView::This { span: blank_span() },
            TypeView::Predicate { span, param, tested } => TypeView::Predicate {
                span: blank_span(),
                param: erased_name(param, names),
                tested: Box::new((*tested).erased(names)),
            },
            TypeView::Ref { span, name, args } => TypeView::Ref {
                span: blank_span(),
                name,
                args: erased_types(args, names),
            },
        }
    }

    /// Equality that ignores source locations.
    pub open spec fn same_ignoring_spans(self, other: TypeView) -> bool {
        self.erased(false) == other.erased(false)
    }

    /// Equality that ignores source locations and binding names.
    pub open spec fn same_ignoring_names_and_spans(self, other: TypeView) -> bool {
        self.erased(true) == other.erased(true)
    }
}

} // verus!
