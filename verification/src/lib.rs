//! Structural assignability for a gradually typed, structurally typed object
//! language: given a target type and a source type, decide whether a value of
//! the source type may be stored in a binding of the target type.

pub mod symbol;
pub mod ty;
pub mod shape;
pub mod equal;
pub mod copy;
pub mod canon;
pub mod keys;
pub mod errors;
pub mod rules;
pub mod lookup;
pub mod assign;
pub mod laws;
pub mod reflexivity;
pub mod util;
pub mod normalize_mut;
