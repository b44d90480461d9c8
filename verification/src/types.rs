//! Type references as they appear in schema and operation documents: a
//! named type, optionally wrapped in list and non-null markers.

use vstd::prelude::*;
use crate::base::Ident;

verus! {

/// A (possibly wrapped) reference to a named type.
pub enum Type {
    Named(Ident),
    List(Box<Type>),
    NonNull(Box<Type>),
}

/// Whether the outermost wrapper of this type reference is non-null.
pub open spec fn is_nonnull(t: Type) -> bool {
    t matches Type::NonNull(_)
}

impl Type {
    /// Whether this type reference is non-null at its outermost level.
    pub fn is_nonnull(&self) -> (r: bool)
        ensures
            r == is_nonnull(*self),
    {
        match self {
            Type::NonNull(_) => true,
            _ => false,
        }
    }
}

} // verus!
