//! The owning call-once handle family: one erased handle type per fixed
//! argument count, each supporting a single ownership-consuming invocation.
//!
//! The host language's borrow-based dynamic dispatch cannot erase a
//! callable that must be *consumed* by its one call, so each handle here
//! owns its callable outright.  Invoking the handle consumes it — using it
//! twice is a type-level impossibility, not a runtime error — and the
//! call's contract is exactly the callable's own: what held of the wrapped
//! callable holds of the invocation.
//!
//! The marker `S` records an optional cross-thread-movability claim,
//! established at construction time; invocation is destructive and never
//! reentrant, so a shareability claim would be meaningless here and none
//! can be recorded.

#![allow(non_camel_case_types)]

use vstd::prelude::*;

use crate::dyn_traits::DynCoerce;
use crate::marker::Movable;
use crate::marker::NoAutoTraits;
use crate::sendness;
use crate::stackbox::StackBox;

verus! {
/// An owning, type-erased handle over a callable of zero arguments,
/// consumed by its single invocation.
pub struct StackBoxDynFnOnce_0<F, Ret, S: sendness::T = NoAutoTraits> {
    f: F,
    _ret: core::marker::PhantomData<Ret>,
    _sendness: core::marker::PhantomData<S>,
}

impl<F, Ret, S: sendness::T> StackBoxDynFnOnce_0<F, Ret, S> {
    /// The callable the handle owns.
    pub closed spec fn func(self) -> F {
        self.f
    }
}

impl<F: FnOnce() -> Ret, Ret, S: sendness::T> StackBoxDynFnOnce_0<F, Ret, S> {
    /// Invokes the owned callable exactly once, consuming the handle; the
    /// callable's own contract is the contract of the invocation.
    pub fn call(self) -> (r: Ret)
        requires
            call_requires(self.func(), ()),
        ensures
            call_ensures(self.func(), (), r),
    {
        (self.f)()
    }
}

// Throughout this family, the callable bound is demanded by `call` rather
// than by the coercion impls: Verus does not expose the spec functions of
// an impl that is bounded by a function trait, and the coercion only moves
// the value, so nothing here needs to invoke it.
impl<F, Ret> DynCoerce<StackBox<F>> for StackBoxDynFnOnce_0<
    F,
    Ret,
    NoAutoTraits,
> {
    open spec fn fattened(it: StackBox<F>, r: Self) -> bool {
        r.func() == it@
    }

    fn fatten(it: StackBox<F>) -> Self {
        StackBoxDynFnOnce_0 {
            f: it.into_inner(),
            _ret: core::marker::PhantomData,
            _sendness: core::marker::PhantomData,
        }
    }
}

/// Claiming cross-thread movability requires the concrete callable to
/// have it: an `F` that is not `Send` is rejected at construction time.
impl<F: Send, Ret> DynCoerce<StackBox<F>> for StackBoxDynFnOnce_0<
    F,
    Ret,
    Movable,
> {
    open spec fn fattened(it: StackBox<F>, r: Self) -> bool {
        r.func() == it@
    }

    fn fatten(it: StackBox<F>) -> Self {
        StackBoxDynFnOnce_0 {
            f: it.into_inner(),
            _ret: core::marker::PhantomData,
            _sendness: core::marker::PhantomData,
        }
    }
}

/// An owning, type-erased handle over a callable of one argument,
/// consumed by its single invocation.
pub struct StackBoxDynFnOnce_1<F, A0, Ret, S: sendness::T = NoAutoTraits> {
    f: F,
    _args: core::marker::PhantomData<(A0,)>,
    _ret: core::marker::PhantomData<Ret>,
    _sendness: core::marker::PhantomData<S>,
}

impl<F, A0, Ret, S: sendness::T> StackBoxDynFnOnce_1<F, A0, Ret, S> {
    /// The callable the handle owns.
    pub closed spec fn func(self) -> F {
        self.f
    }
}

impl<F: FnOnce(A0) -> Ret, A0, Ret, S: sendness::T> StackBoxDynFnOnce_1<F, A0, Ret, S> {
    /// Invokes the owned callable exactly once, consuming the handle; the
    /// callable's own contract is the contract of the invocation.
    pub fn call(self, a0: A0) -> (r: Ret)
        requires
            call_requires(self.func(), (a0,)),
        ensures
            call_ensures(self.func(), (a0,), r),
    {
        (self.f)(a0)
    }
}

impl<F, A0, Ret> DynCoerce<StackBox<F>> for StackBoxDynFnOnce_1<
    F,
    A0, Ret,
    NoAutoTraits,
> {
    open spec fn fattened(it: StackBox<F>, r: Self) -> bool {
        r.func() == it@
    }

    fn fatten(it: StackBox<F>) -> Self {
        StackBoxDynFnOnce_1 {
            f: it.into_inner(),
            _args: core::marker::PhantomData,
            _ret: core::marker::PhantomData,
            _sendness: core::marker::PhantomData,
        }
    }
}

/// Claiming cross-thread movability requires the concrete callable to
/// have it: an `F` that is not `Send` is rejected at construction time.
impl<F: Send, A0, Ret> DynCoerce<StackBox<F>> for StackBoxDynFnOnce_1<
    F,
    A0, Ret,
    Movable,
> {
    open spec fn fattened(it: StackBox<F>, r: Self) -> bool {
        r.func() == it@
    }

    fn fatten(it: StackBox<F>) -> Self {
        StackBoxDynFnOnce_1 {
            f: it.into_inner(),
            _args: core::marker::PhantomData,
            _ret: core::marker::PhantomData,
            _sendness: core::marker::PhantomData,
        }
    }
}

/// An owning, type-erased handle over a callable of two arguments,
/// consumed by its single invocation.
pub struct StackBoxDynFnOnce_2<F, A0, A1, Ret, S: sendness::T = NoAutoTraits> {
    f: F,
    _args: core::marker::PhantomData<(A0, A1,)>,
    _ret: core::marker::PhantomData<Ret>,
    _sendness: core::marker::PhantomData<S>,
}

impl<F, A0, A1, Ret, S: sendness::T> StackBoxDynFnOnce_2<F, A0, A1, Ret, S> {
    /// The callable the handle owns.
    pub closed spec fn func(self) -> F {
        self.f
    }
}

impl<F: FnOnce(A0, A1) -> Ret, A0, A1, Ret, S: sendness::T> StackBoxDynFnOnce_2<F, A0, A1, Ret, S> {
    /// Invokes the owned callable exactly once, consuming the handle; the
    /// callable's own contract is the contract of the invocation.
    pub fn call(self, a0: A0, a1: A1) -> (r: Ret)
        requires
            call_requires(self.func(), (a0, a1)),
        ensures
            call_ensures(self.func(), (a0, a1), r),
    {
        (self.f)(a0, a1)
    }
}

impl<F, A0, A1, Ret> DynCoerce<StackBox<F>> for StackBoxDynFnOnce_2<
    F,
    A0, A1, Ret,
    NoAutoTraits,
> {
    open spec fn fattened(it: StackBox<F>, r: Self) -> bool {
        r.func() == it@
    }

    fn fatten(it: StackBox<F>) -> Self {
        StackBoxDynFnOnce_2 {
            f: it.into_inner(),
            _args: core::marker::PhantomData,
            _ret: core::marker::PhantomData,
            _sendness: core::marker::PhantomData,
        }
    }
}

/// Claiming cross-thread movability requires the concrete callable to
/// have it: an `F` that is not `Send` is rejected at construction time.
impl<F: Send, A0, A1, Ret> DynCoerce<StackBox<F>> for StackBoxDynFnOnce_2<
    F,
    A0, A1, Ret,
    Movable,
> {
    open spec fn fattened(it: StackBox<F>, r: Self) -> bool {
        r.func() == it@
    }

    fn fatten(it: StackBox<F>) -> Self {
        StackBoxDynFnOnce_2 {
            f: it.into_inner(),
            _args: core::marker::PhantomData,
            _ret: core::marker::PhantomData,
            _sendness: core::marker::PhantomData,
        }
    }
}

/// An owning, type-erased handle over a callable of three arguments,
/// consumed by its single invocation.
pub struct StackBoxDynFnOnce_3<F, A0, A1, A2, Ret, S: sendness::T = NoAutoTraits> {
    f: F,
    _args: core::marker::PhantomData<(A0, A1, A2,)>,
    _ret: core::marker::PhantomData<Ret>,
    _sendness: core::marker::PhantomData<S>,
}

impl<F, A0, A1, A2, Ret, S: sendness::T> StackBoxDynFnOnce_3<F, A0, A1, A2, Ret, S> {
    /// The callable the handle owns.
    pub closed spec fn func(self) -> F {
        self.f
    }
}

impl<F: FnOnce(A0, A1, A2) -> Ret, A0, A1, A2, Ret, S: sendness::T> StackBoxDynFnOnce_3<F, A0, A1, A2, Ret, S> {
    /// Invokes the owned callable exactly once, consuming the handle; the
    /// callable's own contract is the contract of the invocation.
    pub fn call(self, a0: A0, a1: A1, a2: A2) -> (r: Ret)
        requires
            call_requires(self.func(), (a0, a1, a2)),
        ensures
            call_ensures(self.func(), (a0, a1, a2), r),
    {
        (self.f)(a0, a1, a2)
    }
}

impl<F, A0, A1, A2, Ret> DynCoerce<StackBox<F>> for StackBoxDynFnOnce_3<
    F,
    A0, A1, A2, Ret,
    NoAutoTraits,
> {
    open spec fn fattened(it: StackBox<F>, r: Self) -> bool {
        r.func() == it@
    }

    fn fatten(it: StackBox<F>) -> Self {
        StackBoxDynFnOnce_3 {
            f: it.into_inner(),
            _args: core::marker::PhantomData,
            _ret: core::marker::PhantomData,
            _sendness: core::marker::PhantomData,
        }
    }
}

/// Claiming cross-thread movability requires the concrete callable to
/// have it: an `F` that is not `Send` is rejected at construction time.
impl<F: Send, A0, A1, A2, Ret> DynCoerce<StackBox<F>> for StackBoxDynFnOnce_3<
    F,
    A0, A1, A2, Ret,
    Movable,
> {
    open spec fn fattened(it: StackBox<F>, r: Self) -> bool {
        r.func() == it@
    }

    fn fatten(it: StackBox<F>) -> Self {
        StackBoxDynFnOnce_3 {
            f: it.into_inner(),
            _args: core::marker::PhantomData,
            _ret: core::marker::PhantomData,
            _sendness: core::marker::PhantomData,
        }
    }
}

/// An owning, type-erased handle over a callable of four arguments,
/// consumed by its single invocation.
pub struct StackBoxDynFnOnce_4<F, A0, A1, A2, A3, Ret, S: sendness::T = NoAutoTraits> {
    f: F,
    _args: core::marker::PhantomData<(A0, A1, A2, A3,)>,
    _ret: core::marker::PhantomData<Ret>,
    _sendness: core::marker::PhantomData<S>,
}

impl<F, A0, A1, A2, A3, Ret, S: sendness::T> StackBoxDynFnOnce_4<F, A0, A1, A2, A3, Ret, S> {
    /// The callable the handle owns.
    pub closed spec fn func(self) -> F {
        self.f
    }
}

impl<F: FnOnce(A0, A1, A2, A3) -> Ret, A0, A1, A2, A3, Ret, S: sendness::T> StackBoxDynFnOnce_4<F, A0, A1, A2, A3, Ret, S> {
    /// Invokes the owned callable exactly once, consuming the handle; the
    /// callable's own contract is the contract of the invocation.
    pub fn call(self, a0: A0, a1: A1, a2: A2, a3: A3) -> (r: Ret)
        requires
            call_requires(self.func(), (a0, a1, a2, a3)),
        ensures
            call_ensures(self.func(), (a0, a1, a2, a3), r),
    {
        (self.f)(a0, a1, a2, a3)
    }
}

impl<F, A0, A1, A2, A3, Ret> DynCoerce<StackBox<F>> for StackBoxDynFnOnce_4<
    F,
    A0, A1, A2, A3, Ret,
    NoAutoTraits,
> {
    open spec fn fattened(it: StackBox<F>, r: Self) -> bool {
        r.func() == it@
    }

    fn fatten(it: StackBox<F>) -> Self {
        StackBoxDynFnOnce_4 {
            f: it.into_inner(),
            _args: core::marker::PhantomData,
            _ret: core::marker::PhantomData,
            _sendness: core::marker::PhantomData,
        }
    }
}

/// Claiming cross-thread movability requires the concrete callable to
/// have it: an `F` that is not `Send` is rejected at construction time.
impl<F: Send, A0, A1, A2, A3, Ret> DynCoerce<StackBox<F>> for StackBoxDynFnOnce_4<
    F,
    A0, A1, A2, A3, Ret,
    Movable,
> {
    open spec fn fattened(it: StackBox<F>, r: Self) -> bool {
        r.func() == it@
    }

    fn fatten(it: StackBox<F>) -> Self {
        StackBoxDynFnOnce_4 {
            f: it.into_inner(),
            _args: core::marker::PhantomData,
            _ret: core::marker::PhantomData,
            _sendness: core::marker::PhantomData,
        }
    }
}

/// An owning, type-erased handle over a callable of five arguments,
/// consumed by its single invocation.
pub struct StackBoxDynFnOnce_5<F, A0, A1, A2, A3, A4, Ret, S: sendness::T = NoAutoTraits> {
    f: F,
    _args: core::marker::PhantomData<(A0, A1, A2, A3, A4,)>,
    _ret: core::marker::PhantomData<Ret>,
    _sendness: core::marker::PhantomData<S>,
}

impl<F, A0, A1, A2, A3, A4, Ret, S: sendness::T> StackBoxDynFnOnce_5<F, A0, A1, A2, A3, A4, Ret, S> {
    /// The callable the handle owns.
    pub closed spec fn func(self) -> F {
        self.f
    }
}

impl<F: FnOnce(A0, A1, A2, A3, A4) -> Ret, A0, A1, A2, A3, A4, Ret, S: sendness::T> StackBoxDynFnOnce_5<F, A0, A1, A2, A3, A4, Ret, S> {
    /// Invokes the owned callable exactly once, consuming the handle; the
    /// callable's own contract is the contract of the invocation.
    pub fn call(self, a0: A0, a1: A1, a2: A2, a3: A3, a4: A4) -> (r: Ret)
        requires
            call_requires(self.func(), (a0, a1, a2, a3, a4)),
        ensures
            call_ensures(self.func(), (a0, a1, a2, a3, a4), r),
    {
        (self.f)(a0, a1, a2, a3, a4)
    }
}

impl<F, A0, A1, A2, A3, A4, Ret> DynCoerce<StackBox<F>> for StackBoxDynFnOnce_5<
    F,
    A0, A1, A2, A3, A4, Ret,
    NoAutoTraits,
> {
    open spec fn fattened(it: StackBox<F>, r: Self) -> bool {
        r.func() == it@
    }

    fn fatten(it: StackBox<F>) -> Self {
        StackBoxDynFnOnce_5 {
            f: it.into_inner(),
            _args: core::marker::PhantomData,
            _ret: core::marker::PhantomData,
            _sendness: core::marker::PhantomData,
        }
    }
}

/// Claiming cross-thread movability requires the concrete callable to
/// have it: an `F` that is not `Send` is rejected at construction time.
impl<F: Send, A0, A1, A2, A3, A4, Ret> DynCoerce<StackBox<F>> for StackBoxDynFnOnce_5<
    F,
    A0, A1, A2, A3, A4, Ret,
    Movable,
> {
    open spec fn fattened(it: StackBox<F>, r: Self) -> bool {
        r.func() == it@
    }

    fn fatten(it: StackBox<F>) -> Self {
        StackBoxDynFnOnce_5 {
            f: it.into_inner(),
            _args: core::marker::PhantomData,
            _ret: core::marker::PhantomData,
            _sendness: core::marker::PhantomData,
        }
    }
}

/// An owning, type-erased handle over a callable of six arguments,
/// consumed by its single invocation.
pub struct StackBoxDynFnOnce_6<F, A0, A1, A2, A3, A4, A5, Ret, S: sendness::T = NoAutoTraits> {
    f: F,
    _args: core::marker::PhantomData<(A0, A1, A2, A3, A4, A5,)>,
    _ret: core::marker::PhantomData<Ret>,
    _sendness: core::marker::PhantomData<S>,
}

impl<F, A0, A1, A2, A3, A4, A5, Ret, S: sendness::T> StackBoxDynFnOnce_6<F, A0, A1, A2, A3, A4, A5, Ret, S> {
    /// The callable the handle owns.
    pub closed spec fn func(self) -> F {
        self.f
    }
}

impl<F: FnOnce(A0, A1, A2, A3, A4, A5) -> Ret, A0, A1, A2, A3, A4, A5, Ret, S: sendness::T> StackBoxDynFnOnce_6<F, A0, A1, A2, A3, A4, A5, Ret, S> {
    /// Invokes the owned callable exactly once, consuming the handle; the
    /// callable's own contract is the contract of the invocation.
    pub fn call(self, a0: A0, a1: A1, a2: A2, a3: A3, a4: A4, a5: A5) -> (r: Ret)
        requires
            call_requires(self.func(), (a0, a1, a2, a3, a4, a5)),
        ensures
            call_ensures(self.func(), (a0, a1, a2, a3, a4, a5), r),
    {
        (self.f)(a0, a1, a2, a3, a4, a5)
    }
}

impl<F, A0, A1, A2, A3, A4, A5, Ret> DynCoerce<StackBox<F>> for StackBoxDynFnOnce_6<
    F,
    A0, A1, A2, A3, A4, A5, Ret,
    NoAutoTraits,
> {
    open spec fn fattened(it: StackBox<F>, r: Self) -> bool {
        r.func() == it@
    }

    fn fatten(it: StackBox<F>) -> Self {
        StackBoxDynFnOnce_6 {
            f: it.into_inner(),
            _args: core::marker::PhantomData,
            _ret: core::marker::PhantomData,
            _sendness: core::marker::PhantomData,
        }
    }
}

/// Claiming cross-thread movability requires the concrete callable to
/// have it: an `F` that is not `Send` is rejected at construction time.
impl<F: Send, A0, A1, A2, A3, A4, A5, Ret> DynCoerce<StackBox<F>> for StackBoxDynFnOnce_6<
    F,
    A0, A1, A2, A3, A4, A5, Ret,
    Movable,
> {
    open spec fn fattened(it: StackBox<F>, r: Self) -> bool {
        r.func() == it@
    }

    fn fatten(it: StackBox<F>) -> Self {
        StackBoxDynFnOnce_6 {
            f: it.into_inner(),
            _args: core::marker::PhantomData,
            _ret: core::marker::PhantomData,
            _sendness: core::marker::PhantomData,
        }
    }
}

/// An owning, type-erased handle over a callable of seven arguments,
/// consumed by its single invocation.
pub struct StackBoxDynFnOnce_7<F, A0, A1, A2, A3, A4, A5, A6, Ret, S: sendness::T = NoAutoTraits> {
    f: F,
    _args: core::marker::PhantomData<(A0, A1, A2, A3, A4, A5, A6,)>,
    _ret: core::marker::PhantomData<Ret>,
    _sendness: core::marker::PhantomData<S>,
}

impl<F, A0, A1, A2, A3, A4, A5, A6, Ret, S: sendness::T> StackBoxDynFnOnce_7<F, A0, A1, A2, A3, A4, A5, A6, Ret, S> {
    /// The callable the handle owns.
    pub closed spec fn func(self) -> F {
        self.f
    }
}

impl<F: FnOnce(A0, A1, A2, A3, A4, A5, A6) -> Ret, A0, A1, A2, A3, A4, A5, A6, Ret, S: sendness::T> StackBoxDynFnOnce_7<F, A0, A1, A2, A3, A4, A5, A6, Ret, S> {
    /// Invokes the owned callable exactly once, consuming the handle; the
    /// callable's own contract is the contract of the invocation.
    pub fn call(self, a0: A0, a1: A1, a2: A2, a3: A3, a4: A4, a5: A5, a6: A6) -> (r: Ret)
        requires
            call_requires(self.func(), (a0, a1, a2, a3, a4, a5, a6)),
        ensures
            call_ensures(self.func(), (a0, a1, a2, a3, a4, a5, a6), r),
    {
        (self.f)(a0, a1, a2, a3, a4, a5, a6)
    }
}

impl<F, A0, A1, A2, A3, A4, A5, A6, Ret> DynCoerce<StackBox<F>> for StackBoxDynFnOnce_7<
    F,
    A0, A1, A2, A3, A4, A5, A6, Ret,
    NoAutoTraits,
> {
    open spec fn fattened(it: StackBox<F>, r: Self) -> bool {
        r.func() == it@
    }

    fn fatten(it: StackBox<F>) -> Self {
        StackBoxDynFnOnce_7 {
            f: it.into_inner(),
            _args: core::marker::PhantomData,
            _ret: core::marker::PhantomData,
            _sendness: core::marker::PhantomData,
        }
    }
}

/// Claiming cross-thread movability requires the concrete callable to
/// have it: an `F` that is not `Send` is rejected at construction time.
impl<F: Send, A0, A1, A2, A3, A4, A5, A6, Ret> DynCoerce<StackBox<F>> for StackBoxDynFnOnce_7<
    F,
    A0, A1, A2, A3, A4, A5, A6, Ret,
    Movable,
> {
    open spec fn fattened(it: StackBox<F>, r: Self) -> bool {
        r.func() == it@
    }

    fn fatten(it: StackBox<F>) -> Self {
        StackBoxDynFnOnce_7 {
            f: it.into_inner(),
            _args: core::marker::PhantomData,
            _ret: core::marker::PhantomData,
            _sendness: core::marker::PhantomData,
        }
    }
}

/// An owning, type-erased handle over a callable of eight arguments,
/// consumed by its single invocation.
pub struct StackBoxDynFnOnce_8<F, A0, A1, A2, A3, A4, A5, A6, A7, Ret, S: sendness::T = NoAutoTraits> {
    f: F,
    _args: core::marker::PhantomData<(A0, A1, A2, A3, A4, A5, A6, A7,)>,
    _ret: core::marker::PhantomData<Ret>,
    _sendness: core::marker::PhantomData<S>,
}

impl<F, A0, A1, A2, A3, A4, A5, A6, A7, Ret, S: sendness::T> StackBoxDynFnOnce_8<F, A0, A1, A2, A3, A4, A5, A6, A7, Ret, S> {
    /// The callable the handle owns.
    pub closed spec fn func(self) -> F {
        self.f
    }
}

impl<F: FnOnce(A0, A1, A2, A3, A4, A5, A6, A7) -> Ret, A0, A1, A2, A3, A4, A5, A6, A7, Ret, S: sendness::T> StackBoxDynFnOnce_8<F, A0, A1, A2, A3, A4, A5, A6, A7, Ret, S> {
    /// Invokes the owned callable exactly once, consuming the handle; the
    /// callable's own contract is the contract of the invocation.
    pub fn call(self, a0: A0, a1: A1, a2: A2, a3: A3, a4: A4, a5: A5, a6: A6, a7: A7) -> (r: Ret)
        requires
            call_requires(self.func(), (a0, a1, a2, a3, a4, a5, a6, a7)),
        ensures
            call_ensures(self.func(), (a0, a1, a2, a3, a4, a5, a6, a7), r),
    {
        (self.f)(a0, a1, a2, a3, a4, a5, a6, a7)
    }
}

impl<F, A0, A1, A2, A3, A4, A5, A6, A7, Ret> DynCoerce<StackBox<F>> for StackBoxDynFnOnce_8<
    F,
    A0, A1, A2, A3, A4, A5, A6, A7, Ret,
    NoAutoTraits,
> {
    open spec fn fattened(it: StackBox<F>, r: Self) -> bool {
        r.func() == it@
    }

    fn fatten(it: StackBox<F>) -> Self {
        StackBoxDynFnOnce_8 {
            f: it.into_inner(),
            _args: core::marker::PhantomData,
            _ret: core::marker::PhantomData,
            _sendness: core::marker::PhantomData,
        }
    }
}

/// Claiming cross-thread movability requires the concrete callable to
/// have it: an `F` that is not `Send` is rejected at construction time.
impl<F: Send, A0, A1, A2, A3, A4, A5, A6, A7, Ret> DynCoerce<StackBox<F>> for StackBoxDynFnOnce_8<
    F,
    A0, A1, A2, A3, A4, A5, A6, A7, Ret,
    Movable,
> {
    open spec fn fattened(it: StackBox<F>, r: Self) -> bool {
        r.func() == it@
    }

    fn fatten(it: StackBox<F>) -> Self {
        StackBoxDynFnOnce_8 {
            f: it.into_inner(),
            _args: core::marker::PhantomData,
            _ret: core::marker::PhantomData,
            _sendness: core::marker::PhantomData,
        }
    }
}

/// An owning, type-erased handle over a callable of nine arguments,
/// consumed by its single invocation.
pub struct StackBoxDynFnOnce_9<F, A0, A1, A2, A3, A4, A5, A6, A7, A8, Ret, S: sendness::T = NoAutoTraits> {
    f: F,
    _args: core::marker::PhantomData<(A0, A1, A2, A3, A4, A5, A6, A7, A8,)>,
    _ret: core::marker::PhantomData<Ret>,
    _sendness: core::marker::PhantomData<S>,
}

impl<F, A0, A1, A2, A3, A4, A5, A6, A7, A8, Ret, S: sendness::T> StackBoxDynFnOnce_9<F, A0, A1, A2, A3, A4, A5, A6, A7, A8, Ret, S> {
    /// The callable the handle owns.
    pub closed spec fn func(self) -> F {
        self.f
    }
}

impl<F: FnOnce(A0, A1, A2, A3, A4, A5, A6, A7, A8) -> Ret, A0, A1, A2, A3, A4, A5, A6, A7, A8, Ret, S: sendness::T> StackBoxDynFnOnce_9<F, A0, A1, A2, A3, A4, A5, A6, A7, A8, Ret, S> {
    /// Invokes the owned callable exactly once, consuming the handle; the
    /// callable's own contract is the contract of the invocation.
    pub fn call(self, a0: A0, a1: A1, a2: A2, a3: A3, a4: A4, a5: A5, a6: A6, a7: A7, a8: A8) -> (r: Ret)
        requires
            call_requires(self.func(), (a0, a1, a2, a3, a4, a5, a6, a7, a8)),
        ensures
            call_ensures(self.func(), (a0, a1, a2, a3, a4, a5, a6, a7, a8), r),
    {
        (self.f)(a0, a1, a2, a3, a4, a5, a6, a7, a8)
    }
}

impl<F, A0, A1, A2, A3, A4, A5, A6, A7, A8, Ret> DynCoerce<StackBox<F>> for StackBoxDynFnOnce_9<
    F,
    A0, A1, A2, A3, A4, A5, A6, A7, A8, Ret,
    NoAutoTraits,
> {
    open spec fn fattened(it: StackBox<F>, r: Self) -> bool {
        r.func() == it@
    }

    fn fatten(it: StackBox<F>) -> Self {
        StackBoxDynFnOnce_9 {
            f: it.into_inner(),
            _args: core::marker::PhantomData,
            _ret: core::marker::PhantomData,
            _sendness: core::marker::PhantomData,
        }
    }
}

/// Claiming cross-thread movability requires the concrete callable to
/// have it: an `F` that is not `Send` is rejected at construction time.
impl<F: Send, A0, A1, A2, A3, A4, A5, A6, A7, A8, Ret> DynCoerce<StackBox<F>> for StackBoxDynFnOnce_9<
    F,
    A0, A1, A2, A3, A4, A5, A6, A7, A8, Ret,
    Movable,
> {
    open spec fn fattened(it: StackBox<F>, r: Self) -> bool {
        r.func() == it@
    }

    fn fatten(it: StackBox<F>) -> Self {
        StackBoxDynFnOnce_9 {
            f: it.into_inner(),
            _args: core::marker::PhantomData,
            _ret: core::marker::PhantomData,
            _sendness: core::marker::PhantomData,
        }
    }
}

} // verus!
