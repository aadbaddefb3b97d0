//! Equality of member keys.

use vstd::prelude::*;
use crate::ty::{Key, KeyView};

verus! {

impl KeyView {
    /// The text a key is looked up by; a computed key has none.
    pub open spec fn lookup_name(self) -> Option<Seq<char>> {
        match self {
            KeyView::Ident { sym, .. } => Some(sym),
            KeyView::Str { value, .. } => Some(value),
            KeyView::Num { text, .. } => Some(text),
            KeyView::Computed { .. } => None,
        }
    }
}

/// Two keys name the same member when both have a lookup text, the texts
/// are the same, and at least one of the two is an identifier or a string:
/// a numeric key is only ever compared with a spelled one, by its decimal
/// text. A computed key names no member.
pub open spec fn key_equal(a: KeyView, b: KeyView) -> bool {
    &&& a.lookup_name() is Some
    &&& b.lookup_name() is Some
    &&& a.lookup_name() == b.lookup_name()
    &&& !(a is Num && b is Num)
}

/// Two keys are the same identifier.
pub open spec fn ident_equal(a: KeyView, b: KeyView) -> bool {
    a matches KeyView::Ident { sym: s1, .. } && b matches KeyView::Ident { sym: s2, .. } && s1
        == s2
}

/// Whether two keys name the same member.
pub fn is_prop_name_eq(l: &Key, r: &Key) -> (res: bool)
    ensures
        res == key_equal(l@, r@),
{
    match l {
        Key::Ident { sym, .. } | Key::Str { value: sym, .. } => match r {
            Key::Ident { sym: r_sym, .. } | Key::Str { value: r_sym, .. } => sym.same(r_sym),
            Key::Num { text, .. } => sym.same(text),
            Key::Computed { .. } => false,
        },
        Key::Computed { .. } => false,
        Key::Num { text, .. } => match r {
            Key::Ident { sym: r_sym, .. } | Key::Str { value: r_sym, .. } => r_sym.same(text),
            _ => false,
        },
    }
}

/// Whether two keys are the same identifier.
pub fn is_key_eq(l: &Key, r: &Key) -> (res: bool)
    ensures
        res == ident_equal(l@, r@),
{
    match l {
        Key::Ident { sym, .. } => match r {
            Key::Ident { sym: r_sym, .. } => sym.same(r_sym),
            _ => false,
        },
        _ => false,
    }
}

} // verus!
