//! Caller-supplied storage for exactly one value.

use vstd::prelude::*;

use crate::stackbox::StackBox;

verus! {

/// A vacant, fixed-capacity slot for exactly one value of type `T`.
///
/// A `Slot` models the caller-declared storage that backs a [`StackBox`]:
/// it is created vacant and carries no value of its own.  Feeding a value to
/// it through [`Slot::stackbox`] (or [`StackBox::new_in`]) hands ownership
/// of that value to the returned handle; the slot itself never owns a live
/// value, so it can be reused once the handle has given its value up.
pub struct Slot<T> {
    _marker: core::marker::PhantomData<T>,
}

/// Returns a fresh, vacant [`Slot`].
pub fn mk_slot<T>() -> Slot<T> {
    Slot { _marker: core::marker::PhantomData }
}

impl<T> Slot<T> {
    /// Moves `value` into this slot's storage and returns the owning handle
    /// over it.  Convenience shortcut for [`StackBox::new_in`].
    pub fn stackbox(&mut self, value: T) -> (r: StackBox<T>)
        ensures
            r@ == value,
    {
        StackBox::from_value(value)
    }
}

} // verus!
