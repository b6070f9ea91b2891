//! Core handle behaviour: construction, extraction, and single destruction.

use std::rc::Rc;

use stackbox::fn_once::StackBoxDynFnOnce_0;
use stackbox::marker::NoAutoTraits;
use stackbox::mk_slot;
use stackbox::StackBox;

#[test]
fn new_in_basic() {
    let mut slot = mk_slot();
    let boxed = StackBox::new_in(&mut slot, 42u64);
    assert_eq!(*boxed.borrow(), 42);
    assert_eq!(boxed.into_inner(), 42);
}

#[test]
fn with_new_basic() {
    let doubled = StackBox::with_new(21u64, |b: StackBox<u64>| b.into_inner() * 2);
    assert_eq!(doubled, 42);
}

#[test]
fn borrow_mut_updates() {
    let mut slot = mk_slot();
    let mut boxed = StackBox::new_in(&mut slot, 1u32);
    *boxed.borrow_mut() = 5;
    assert_eq!(boxed.into_inner(), 5);
}

#[test]
fn slot_reuse_after_extraction() {
    let mut slot = mk_slot();
    let first = StackBox::new_in(&mut slot, String::from("first"));
    assert_eq!(first.into_inner(), "first");
    let second = StackBox::new_in(&mut slot, String::from("second"));
    assert_eq!(second.into_inner(), "second");
}

/// Single-destruction checks, observed through a shared reference count:
/// dropping a handle destroys the wrapped callable exactly once; extracting
/// it and then dropping or calling it destroys it exactly once; coercing it
/// into a call-once handle neither runs nor skips the destruction, which
/// then happens exactly once on drop or on the single call.
#[test]
fn test_drops() {
    let rc = Rc::new(());
    let count = || Rc::strong_count(&rc);
    let rc = || {
        let rc = rc.clone();
        move || drop(rc)
    };

    let mut slot = mk_slot();
    let stackbox = slot.stackbox(rc());
    assert_eq!(count(), 2);
    drop(stackbox);
    assert_eq!(count(), 1);

    let mut slot = mk_slot();
    let stackbox = slot.stackbox(rc());
    assert_eq!(count(), 2);
    let f = StackBox::into_inner(stackbox);
    assert_eq!(count(), 2);
    drop(f);
    assert_eq!(count(), 1);

    let mut slot = mk_slot();
    let stackbox = slot.stackbox(rc());
    assert_eq!(count(), 2);
    let f = StackBox::into_inner(stackbox);
    assert_eq!(count(), 2);
    f();
    assert_eq!(count(), 1);

    let mut slot = mk_slot();
    let stackbox = slot.stackbox(rc());
    assert_eq!(count(), 2);
    let dyn_fn: StackBoxDynFnOnce_0<_, (), NoAutoTraits> = stackbox.into_dyn();
    assert_eq!(count(), 2);
    drop(dyn_fn);
    assert_eq!(count(), 1);

    let mut slot = mk_slot();
    let stackbox = slot.stackbox(rc());
    assert_eq!(count(), 2);
    let dyn_fn: StackBoxDynFnOnce_0<_, (), NoAutoTraits> = stackbox.into_dyn();
    assert_eq!(count(), 2);
    dyn_fn.call();
    assert_eq!(count(), 1);
}

/// Wrapping a value with an observable destruction effect and dropping the
/// handle triggers the effect exactly once; extracting the value first and
/// dropping it also triggers it exactly once, never both.
#[test]
fn single_destruction_of_plain_value() {
    let rc = Rc::new(());
    assert_eq!(Rc::strong_count(&rc), 1);

    let mut slot = mk_slot();
    let boxed = StackBox::new_in(&mut slot, rc.clone());
    assert_eq!(Rc::strong_count(&rc), 2);
    drop(boxed);
    assert_eq!(Rc::strong_count(&rc), 1);

    let mut slot = mk_slot();
    let boxed = StackBox::new_in(&mut slot, rc.clone());
    assert_eq!(Rc::strong_count(&rc), 2);
    let inner = boxed.into_inner();
    assert_eq!(Rc::strong_count(&rc), 2);
    drop(inner);
    assert_eq!(Rc::strong_count(&rc), 1);
}
