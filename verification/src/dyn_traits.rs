//! Coercion of a typed owning handle into a type-erased owning handle.
//!
//! The erased handle types (the owning-any handle, the call-once family)
//! each implement [`DynCoerce`] from the typed handles they can be built
//! from; [`StackBox::into_dyn`] is the single entry point that performs the
//! coercion.  Coercion consumes the typed handle and transfers ownership of
//! the pointee into the erased handle: the pointee is neither destroyed nor
//! duplicated on the way.

use vstd::prelude::*;

use crate::stackbox::StackBox;

verus! {

/// Erased handle types constructible from a typed handle `Src`.
///
/// `fattened` says, per implementation, exactly what the constructed
/// erased handle holds in terms of the source handle — the contract that
/// makes "coercion transfers ownership without loss or duplication"
/// checkable at every use.
pub trait DynCoerce<Src>: Sized {
    /// What the erased handle built from `it` holds.
    spec fn fattened(it: Src, r: Self) -> bool;

    /// Builds the erased handle, consuming the typed one.
    fn fatten(it: Src) -> (r: Self)
        ensures
            Self::fattened(it, r),
    ;
}

impl<T> StackBox<T> {
    /// Coerces this typed owning handle into an erased owning handle,
    /// transferring ownership of the pointee: the erased handle holds
    /// exactly what this handle held, as `DynCoerce::fattened` states for
    /// the chosen target.
    pub fn into_dyn<D: DynCoerce<StackBox<T>>>(self) -> (r: D)
        ensures
            D::fattened(self, r),
    {
        D::fatten(self)
    }
}

} // verus!
