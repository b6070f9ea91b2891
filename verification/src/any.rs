//! The owning-any handle: a type-erased owning handle with runtime type
//! identity and fallible downcasting.

use vstd::prelude::*;

use crate::dyn_traits::DynCoerce;
use crate::erased::Erased;
use crate::erased::GetVTable;
use crate::marker::Movable;
use crate::marker::MovableShareable;
use crate::marker::NoAutoTraits;
use crate::marker::Shareable;
use crate::sendness;
use crate::stackbox::StackBox;
use crate::syncness;

verus! {

/// An owning handle over a value whose type has been erased, carrying the
/// erased pointee together with its type's dispatch-table identity.
///
/// The marker `A` records which thread-affinity capabilities were claimed
/// for the erased pointee when the handle was built.  A claim can only be
/// established at construction: each coercion into this handle demands
/// that the concrete pointee type actually has every auto trait the marker
/// claims, so a handle carrying a claim its pointee lacks cannot be built.
///
/// The handle's model is the pair of its type identity, `self.tid()`, and
/// its erased pointee, `self.payload()`.
#[derive(Debug)]
pub struct StackBoxDynAny<A: sendness::T + syncness::T = NoAutoTraits> {
    value: Erased,
    type_id: u64,
    _auto_traits: core::marker::PhantomData<A>,
}

impl<A: sendness::T + syncness::T> StackBoxDynAny<A> {
    /// The type identity recorded when the handle was built.
    pub closed spec fn tid(self) -> u64 {
        self.type_id
    }

    /// The erased pointee the handle owns.
    pub closed spec fn payload(self) -> Erased {
        self.value
    }

    /// Whether a downcast of this handle to `U` hits: the recorded type
    /// identity is `U`'s and the erased pointee lies in `U`'s image.
    pub open spec fn downcastable<U: GetVTable>(self) -> bool {
        self.tid() == U::type_id_spec() && U::owns_erased(self.payload())
    }

    /// The concrete pointee's runtime type identity, read from the
    /// dispatch-table entry recorded at construction.
    pub fn type_id(&self) -> (r: u64)
        ensures
            r == self.tid(),
    {
        self.type_id
    }

    /// Whether the erased pointee's recorded type identity is `U`'s.
    pub fn is<U: GetVTable>(&self) -> (r: bool)
        ensures
            r == (self.tid() == U::type_id_spec()),
    {
        self.type_id == U::type_id()
    }

    /// A shared view of the pointee at type `U`, if the handle's type
    /// identity is `U`'s; no ownership moves.
    pub fn downcast_ref<U: GetVTable>(&self) -> (r: Option<&U>)
        ensures
            self.downcastable::<U>() <==> r is Some,
            r matches Some(v) ==> v.erased_spec() == self.payload(),
    {
        if self.type_id == U::type_id() {
            U::try_unerase_ref(&self.value)
        } else {
            None
        }
    }

    /// An exclusive view of the pointee at type `U`, if the handle's type
    /// identity is `U`'s; no ownership moves, and writes through the view
    /// rewrite the pointee in place.
    pub fn downcast_mut<U: GetVTable>(&mut self) -> (r: Option<&mut U>)
        ensures
            old(self).downcastable::<U>() <==> r is Some,
            r is None ==> *final(self) == *old(self),
            r matches Some(v) ==> (*v).erased_spec() == old(self).payload() && final(self).tid()
                == old(self).tid() && final(self).payload() == (*final(v)).erased_spec(),
    {
        if self.type_id == U::type_id() {
            U::try_unerase_mut(&mut self.value)
        } else {
            None
        }
    }

    /// A shared view of the pointee in its erased, uniformly-typed form,
    /// for interoperating with borrow-based APIs over erased values; no
    /// ownership moves.
    #[allow(non_snake_case)]
    pub fn as_Any(&self) -> (r: &Erased)
        ensures
            *r == self.payload(),
    {
        &self.value
    }

    /// An exclusive view of the pointee in its erased, uniformly-typed
    /// form; no ownership moves, and writes through the view rewrite the
    /// handle's pointee while its recorded type identity stays.
    #[allow(non_snake_case)]
    pub fn as_Any_mut(&mut self) -> (r: &mut Erased)
        ensures
            *r == old(self).payload(),
            final(self).payload() == *final(r),
            final(self).tid() == old(self).tid(),
    {
        &mut self.value
    }

    /// Consumes the handle and recovers a typed owning handle over the
    /// pointee, if the handle's type identity is `U`'s; otherwise the
    /// handle itself is given back unchanged, still owning its pointee.
    pub fn downcast<U: GetVTable>(self) -> (r: Result<StackBox<U>, Self>)
        ensures
            self.downcastable::<U>() ==> (r matches Ok(b) && b@.erased_spec() == self.payload()),
            !self.downcastable::<U>() ==> r == Err::<StackBox<U>, Self>(self),
    {
        if self.type_id == U::type_id() {
            let StackBoxDynAny { value, type_id, _auto_traits } = self;
            match U::try_unerase(value) {
                Ok(v) => Ok(StackBox::from_value(v)),
                Err(e) => Err(StackBoxDynAny { value: e, type_id, _auto_traits }),
            }
        } else {
            Err(self)
        }
    }
}

impl<T: GetVTable> DynCoerce<StackBox<T>> for StackBoxDynAny<NoAutoTraits> {
    open spec fn fattened(it: StackBox<T>, r: Self) -> bool {
        r.tid() == T::type_id_spec() && r.payload() == it@.erased_spec()
    }

    fn fatten(it: StackBox<T>) -> Self {
        StackBoxDynAny {
            type_id: T::type_id(),
            value: it.into_inner().erase(),
            _auto_traits: core::marker::PhantomData,
        }
    }
}

/// Claiming cross-thread movability requires the concrete pointee to have
/// it: a `T` that is not `Send` is rejected at construction time.
impl<T: GetVTable + Send> DynCoerce<StackBox<T>> for StackBoxDynAny<Movable> {
    open spec fn fattened(it: StackBox<T>, r: Self) -> bool {
        r.tid() == T::type_id_spec() && r.payload() == it@.erased_spec()
    }

    fn fatten(it: StackBox<T>) -> Self {
        StackBoxDynAny {
            type_id: T::type_id(),
            value: it.into_inner().erase(),
            _auto_traits: core::marker::PhantomData,
        }
    }
}

/// Claiming cross-thread shareability requires the concrete pointee to
/// have it: a `T` that is not `Sync` is rejected at construction time.
impl<T: GetVTable + Sync> DynCoerce<StackBox<T>> for StackBoxDynAny<Shareable> {
    open spec fn fattened(it: StackBox<T>, r: Self) -> bool {
        r.tid() == T::type_id_spec() && r.payload() == it@.erased_spec()
    }

    fn fatten(it: StackBox<T>) -> Self {
        StackBoxDynAny {
            type_id: T::type_id(),
            value: it.into_inner().erase(),
            _auto_traits: core::marker::PhantomData,
        }
    }
}

/// Claiming both capabilities requires the concrete pointee to have both.
impl<T: GetVTable + Send + Sync> DynCoerce<StackBox<T>> for StackBoxDynAny<MovableShareable> {
    open spec fn fattened(it: StackBox<T>, r: Self) -> bool {
        r.tid() == T::type_id_spec() && r.payload() == it@.erased_spec()
    }

    fn fatten(it: StackBox<T>) -> Self {
        StackBoxDynAny {
            type_id: T::type_id(),
            value: it.into_inner().erase(),
            _auto_traits: core::marker::PhantomData,
        }
    }
}

/// Round-trip downcast law: a handle built by erasing a value `v : T`
/// (its identity is `T`'s and its payload is `v`'s erased form) satisfies
/// exactly the condition under which `downcast::<T>` promises success, and
/// the typed handle promised back can only hold `v` itself.  For any type
/// with an identity other than `T`'s, `downcast` promises the handle back
/// unchanged.
pub proof fn lemma_downcast_round_trip<T: GetVTable, A: sendness::T + syncness::T>(
    v: T,
    h: StackBoxDynAny<A>,
)
    requires
        h.tid() == T::type_id_spec(),
        h.payload() == v.erased_spec(),
    ensures
        h.downcastable::<T>(),
        forall|u: T| u.erased_spec() == h.payload() ==> u == v,
{
    T::lemma_erase_owns(v);
    assert forall|u: T| u.erased_spec() == h.payload() implies u == v by {
        T::lemma_erase_injective(u, v);
    }
}

} // verus!
