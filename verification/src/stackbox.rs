//! The scoped owning handle.

use vstd::prelude::*;

use crate::slot::mk_slot;
use crate::slot::Slot;

verus! {

/// An owning handle over a value whose backing storage is supplied by the
/// caller (a [`Slot`], or the transient storage of [`StackBox::with_new`]).
///
/// Think of it as a `&mut T` with move semantics: the handle owns its
/// pointee exclusively, and parting with the handle — by [`StackBox::into_inner`],
/// by a coercion that consumes it, or by dropping it — is the only way the
/// pointee's life ends.  The handle is a move-only value, so the pointee is
/// given up exactly once.
///
/// The view of a `StackBox<T>` is the owned value itself: `self@` is the
/// `T` the handle currently owns.
pub struct StackBox<T> {
    value: T,
}

impl<T> View for StackBox<T> {
    type V = T;

    closed spec fn view(&self) -> T {
        self.value
    }
}

impl<T> StackBox<T> {
    /// Crate-internal: wraps a value whose storage the caller has already
    /// established ownership of.
    pub(crate) fn from_value(value: T) -> (r: StackBox<T>)
        ensures
            r@ == value,
    {
        StackBox { value }
    }

    /// Moves `value` into `slot` and wraps the slot's storage in an owning
    /// handle.  The main constructor.
    pub fn new_in(slot: &mut Slot<T>, value: T) -> (r: StackBox<T>)
        ensures
            r@ == value,
    {
        slot.stackbox(value)
    }

    /// Scope-bounded constructor: builds a handle over `value` in an
    /// implicit local slot and hands it to the continuation `ret`, which
    /// decides the handle's fate.  Returns whatever `ret` returns.
    pub fn with_new<R, F: FnOnce(StackBox<T>) -> R>(value: T, ret: F) -> (r: R)
        requires
            forall|b: StackBox<T>| b@ == value ==> call_requires(ret, (b,)),
        ensures
            exists|b: StackBox<T>| b@ == value && call_ensures(ret, (b,), r),
    {
        let mut slot = mk_slot();
        ret(StackBox::new_in(&mut slot, value))
    }

    /// Extracts the owned value, ending the handle.  The backing slot is
    /// vacant again afterwards and may back another handle.
    pub fn into_inner(self) -> (r: T)
        ensures
            r == self@,
    {
        self.value
    }

    /// Shared access to the owned value (the handle's indirection).
    pub fn borrow(&self) -> (r: &T)
        ensures
            *r == self@,
    {
        &self.value
    }

    /// Exclusive access to the owned value (the handle's indirection).
    pub fn borrow_mut(&mut self) -> (r: &mut T)
        ensures
            *r == old(self)@,
            final(self)@ == *final(r),
    {
        &mut self.value
    }
}

} // verus!
