//! Canonicalization in place.

use vstd::prelude::*;
use crate::canon::lemma_normalized_is_canonical;
use crate::ty::{type_views, Type, TypeView};

verus! {

/// A place that holds a type and can be brought to its canonical shape.
pub trait NormalizeMut {
    /// The type that the place holds.
    spec fn held(&self) -> TypeView;

    /// Replaces the type by its canonical shape and gives access to it:
    /// what is written through the access is what the place then holds.
    fn normalize_mut(&mut self) -> (r: &mut Type)
        ensures
            (*r)@ == old(self).held().normalized(),
            final(self).held() == (*final(r))@,
    ;
}

impl NormalizeMut for Type {
    open spec fn held(&self) -> TypeView {
        self@
    }

    fn normalize_mut(&mut self) -> (r: &mut Type) {
        proof {
            lemma_normalized_is_canonical(self@);
        }
        loop
            invariant
                self@.normalized() == old(self)@.normalized(),
            ensures
                self@ == old(self)@.normalized(),
            decreases self@,
        {
            let single = match self {
                Type::Union { types, .. } => types.len() == 1,
                _ => false,
            };
            proof {
                lemma_normalized_is_canonical(self@);
                if self@ is Union {
                    assert(type_views(self->Union_types@).len() == self->Union_types@.len());
                }
            }
            if !single {
                break;
            }
            let ghost before = self@;
            let inner = match self {
                Type::Union { types, .. } => {
                    assert(type_views(types@)[0] == types@[0]@);
                    types.pop()
                },
                _ => None,
            };
            match inner {
                Some(t) => {
                    *self = t;
                },
                None => {},
            }
        }
        self
    }
}

impl<T: NormalizeMut> NormalizeMut for Box<T> {
    open spec fn held(&self) -> TypeView {
        (**self).held()
    }

    fn normalize_mut(&mut self) -> (r: &mut Type) {
        (&mut **self).normalize_mut()
    }
}

} // verus!
