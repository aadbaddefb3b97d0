//! Canonical forms: the top-level shape that the rules match on, and the
//! widening of a literal to its primitive.

use vstd::prelude::*;
use swc_common::Span;
use crate::ty::{type_views, KeywordKind, Lit, LitView, Type, TypeView};

verus! {

impl LitView {
    /// Where the literal stands.
    pub open spec fn span(self) -> Span {
        match self {
            LitView::Str { span, .. } => span,
            LitView::Number { span, .. } => span,
            LitView::Bool { span, .. } => span,
        }
    }

    /// The primitive that holds the literal.
    pub open spec fn primitive(self) -> KeywordKind {
        match self {
            LitView::Str { .. } => KeywordKind::Str,
            LitView::Number { .. } => KeywordKind::Number,
            LitView::Bool { .. } => KeywordKind::Boolean,
        }
    }
}

impl TypeView {
    /// Where the type stands.
    pub open spec fn span(self) -> Span {
        match self {
            TypeView::Keyword { span, .. } => span,
            TypeView::Lit(l) => l.span(),
            TypeView::Array { span, .. } => span,
            TypeView::Tuple { span, .. } => span,
            TypeView::Union { span, .. } => span,
            TypeView::Intersection { span, .. } => span,
            TypeView::TypeLit { span, .. } => span,
            TypeView::Interface { span, .. } => span,
            TypeView::Class(c) => c.span,
            TypeView::ClassInstance { span, .. } => span,
            TypeView::Function { span, .. } => span,
            TypeView::Constructor { span, .. } => span,
            TypeView::Param(p) => p.span,
            TypeView::Enum(e) => e.span,
            TypeView::EnumVariant { span, .. } => span,
            TypeView::This { span } => span,
            TypeView::Predicate { span, .. } => span,
            TypeView::Ref { span, .. } => span,
        }
    }

    /// The canonical top-level shape: a union of a single alternative
    /// stands for that alternative.
    pub open spec fn normalized(self) -> TypeView
        decreases self,
    {
        match self {
            TypeView::Union { types, .. } => if types.len() == 1 {
                types[0].normalized()
            } else {
                self
            },
            _ => self,
        }
    }

    /// A literal widened to the primitive that holds it; any other type
    /// unchanged.
    pub open spec fn generalized(self) -> TypeView {
        match self {
            TypeView::Lit(l) => TypeView::Keyword { span: l.span(), kind: l.primitive() },
            _ => self,
        }
    }

    /// Whether the canonical shape is the keyword `kind`.
    pub open spec fn is_keyword(self, kind: KeywordKind) -> bool {
        self.normalized() matches TypeView::Keyword { kind: k, .. } && k == kind
    }

    /// Whether the canonical shape is a union of exactly one alternative:
    /// it never is.
    pub open spec fn is_canonical(self) -> bool {
        !(self matches TypeView::Union { types, .. } && types.len() == 1)
    }
}

/// A canonical shape is canonical, and normalizing it changes nothing.
pub proof fn lemma_normalized_is_canonical(t: TypeView)
    ensures
        t.normalized().is_canonical(),
        t.normalized().normalized() == t.normalized(),
        t.is_canonical() ==> t.normalized() == t,
    decreases t,
{
    match t {
        TypeView::Union { types, .. } => {
            if types.len() == 1 {
                lemma_normalized_is_canonical(types[0]);
            }
        },
        _ => {},
    }
}

/// The canonical shape of a type is the type or one of its parts.
pub proof fn lemma_normalized_decreases(t: TypeView)
    ensures
        t.normalized() == t || decreases_to!(t => t.normalized()),
    decreases t,
{
    match t {
        TypeView::Union { types, .. } => {
            if types.len() == 1 {
                lemma_normalized_decreases(types[0]);
            }
        },
        _ => {},
    }
}

impl Lit {
    /// Where the literal stands.
    pub fn span(&self) -> (s: Span)
        ensures
            s == self@.span(),
    {
        match self {
            Lit::Str { span, .. } => *span,
            Lit::Number { span, .. } => *span,
            Lit::Bool { span, .. } => *span,
        }
    }

    /// The primitive that holds the literal.
    pub fn primitive(&self) -> (k: KeywordKind)
        ensures
            k == self@.primitive(),
    {
        match self {
            Lit::Str { .. } => KeywordKind::Str,
            Lit::Number { .. } => KeywordKind::Number,
            Lit::Bool { .. } => KeywordKind::Boolean,
        }
    }
}

impl Type {
    /// The keyword type `kind` at `span`.
    pub fn keyword(span: Span, kind: KeywordKind) -> (r: Type)
        ensures
            r@ == (TypeView::Keyword { span, kind }),
    {
        Type::Keyword { span, kind }
    }

    /// The type `any` at `span`.
    pub fn any(span: Span) -> (r: Type)
        ensures
            r@ == (TypeView::Keyword { span, kind: KeywordKind::Any }),
    {
        Type::Keyword { span, kind: KeywordKind::Any }
    }

    /// Where the type stands.
    pub fn span(&self) -> (s: Span)
        ensures
            s == self@.span(),
    {
        match self {
            Type::Keyword { span, .. } => *span,
            Type::Lit(l) => l.span(),
            Type::Array { span, .. } => *span,
            Type::Tuple { span, .. } => *span,
            Type::Union { span, .. } => *span,
            Type::Intersection { span, .. } => *span,
            Type::TypeLit { span, .. } => *span,
            Type::Interface { span, .. } => *span,
            Type::Class(c) => {
                assert(c@.span == c.span);
                c.span
            },
            Type::ClassInstance { span, .. } => *span,
            Type::Function { span, .. } => *span,
            Type::Constructor { span, .. } => *span,
            Type::Param(p) => {
                assert(p@.span == p.span);
                p.span
            },
            Type::Enum(e) => e.span,
            Type::EnumVariant { span, .. } => *span,
            Type::This { span } => *span,
            Type::Predicate { span, .. } => *span,
            Type::Ref { span, .. } => *span,
        }
    }

    /// The canonical top-level shape of the type.
    pub fn normalize(&self) -> (r: &Type)
        ensures
            r@ == self@.normalized(),
            r@.is_canonical(),
        decreases *self,
    {
        proof {
            lemma_normalized_is_canonical(self@);
        }
        match self {
            Type::Union { types, .. } => {
                assert(type_views(types@).len() == types@.len());
                if types.len() == 1 {
                    assert(type_views(types@)[0] == types@[0]@);
                    types[0].normalize()
                } else {
                    self
                }
            },
            _ => self,
        }
    }

    /// Widens a literal type to the primitive that holds it, and leaves
    /// any other type as it is.
    pub fn generalize_lit(self) -> (r: Type)
        ensures
            r@ == self@.generalized(),
    {
        match self {
            Type::Lit(l) => Type::Keyword { span: l.span(), kind: l.primitive() },
            other => other,
        }
    }

    /// Whether the canonical shape of the type is the keyword `kind`.
    pub fn is_keyword(&self, kind: KeywordKind) -> (b: bool)
        ensures
            b == self@.is_keyword(kind),
    {
        match self.normalize() {
            Type::Keyword { kind: k, .. } => *k == kind,
            _ => false,
        }
    }
}

} // verus!
