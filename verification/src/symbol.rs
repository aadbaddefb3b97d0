//! Interned names.
//!
//! Every name that the type algebra carries (identifiers, string values, the
//! decimal text of numeric literals) is a [`Symbol`]: an interned string of
//! `swc_atoms`. The analyzer only ever compares symbols, so all that is known
//! of one in specifications is its text, `sym@`.

use vstd::prelude::*;

verus! {

/// An interned string of `swc_atoms`. It is opaque here: all that is known
/// of one is the text that [`atom_text`] names.
#[verifier::external_type_specification]
#[verifier::external_body]
pub struct ExAtom(swc_atoms::Atom);

/// The characters of an interned string.
pub uninterp spec fn atom_text(a: swc_atoms::Atom) -> Seq<char>;

/// `swc_atoms::Atom::from(&str)`: interns `s`; the atom then holds exactly
/// the characters of `s`.
#[verifier::external_body]
fn atom_from_str(s: &str) -> (a: swc_atoms::Atom)
    ensures
        atom_text(a) == s@,
{
    swc_atoms::Atom::from(s)
}

/// `<swc_atoms::Atom as PartialEq>::eq`: two atoms are equal exactly when
/// they hold the same characters, whichever store interned them.
#[verifier::external_body]
fn atom_eq(a: &swc_atoms::Atom, b: &swc_atoms::Atom) -> (r: bool)
    ensures
        r == (atom_text(*a) == atom_text(*b)),
{
    a == b
}

/// `<swc_atoms::Atom as PartialEq<str>>::eq`: compares the atom's characters
/// with those of `s`.
#[verifier::external_body]
fn atom_eq_str(a: &swc_atoms::Atom, s: &str) -> (r: bool)
    ensures
        r == (atom_text(*a) == s@),
{
    *a == *s
}

/// Cloning an atom gives another handle to the same interned string.
pub assume_specification[ <swc_atoms::Atom as Clone>::clone ](a: &swc_atoms::Atom) -> (r:
    swc_atoms::Atom)
    ensures
        r == *a,
;

/// An interned name.
#[derive(Debug, PartialEq, Eq, Hash)]
pub struct Symbol {
    atom: swc_atoms::Atom,
}

impl View for Symbol {
    type V = Seq<char>;

    closed spec fn view(&self) -> Seq<char> {
        atom_text(self.atom)
    }
}

impl Symbol {
    /// Interns `text`.
    pub fn new(text: &str) -> (r: Symbol)
        ensures
            r@ == text@,
    {
        Symbol { atom: atom_from_str(text) }
    }

    /// The symbol of an interned string.
    pub fn from_atom(atom: swc_atoms::Atom) -> (r: Symbol)
        ensures
            r@ == atom_text(atom),
    {
        Symbol { atom }
    }

    /// The interned string.
    pub fn as_atom(&self) -> (a: &swc_atoms::Atom)
        ensures
            atom_text(*a) == self@,
    {
        &self.atom
    }

    /// Whether the two symbols spell the same name.
    pub fn same(&self, other: &Symbol) -> (r: bool)
        ensures
            r == (self@ == other@),
    {
        atom_eq(&self.atom, &other.atom)
    }

    /// Whether the symbol spells `text`.
    pub fn spells(&self, text: &str) -> (r: bool)
        ensures
            r == (self@ == text@),
    {
        atom_eq_str(&self.atom, text)
    }

}

impl Clone for Symbol {
    /// A second handle to the same name.
    fn clone(&self) -> (r: Symbol)
        ensures
            r == *self,
    {
        Symbol { atom: self.atom.clone() }
    }
}

} // verus!
