//! The call-once handle family: single consuming invocation.

use std::cell::Cell;
use std::rc::Rc;

use stackbox::fn_once::StackBoxDynFnOnce_0;
use stackbox::fn_once::StackBoxDynFnOnce_1;
use stackbox::fn_once::StackBoxDynFnOnce_2;
use stackbox::marker::Movable;
use stackbox::marker::NoAutoTraits;
use stackbox::mk_slot;

/// The concrete call-once scenario: a handle wrapping a closure that
/// increments a counter and returns the counter's prior value answers 0 on
/// its single call, after which the handle no longer exists (a second use
/// would not compile: the call consumed it).
#[test]
fn call_once_counter() {
    let counter = Rc::new(Cell::new(0u32));
    let seen = counter.clone();
    let f = move || {
        let prior = seen.get();
        seen.set(prior + 1);
        prior
    };
    let mut slot = mk_slot();
    let handle: StackBoxDynFnOnce_0<_, u32, NoAutoTraits> = slot.stackbox(f).into_dyn();
    assert_eq!(handle.call(), 0);
    assert_eq!(counter.get(), 1);
}

#[test]
fn call_with_one_argument() {
    let base = 100u32;
    let f = move |x: u32| base + x;
    let mut slot = mk_slot();
    let handle: StackBoxDynFnOnce_1<_, u32, u32, NoAutoTraits> = slot.stackbox(f).into_dyn();
    assert_eq!(handle.call(7), 107);
}

#[test]
fn call_with_two_arguments() {
    let f = |a: u64, b: u64| a * 10 + b;
    let mut slot = mk_slot();
    let handle: StackBoxDynFnOnce_2<_, u64, u64, u64, NoAutoTraits> = slot.stackbox(f).into_dyn();
    assert_eq!(handle.call(4, 2), 42);
}

#[test]
fn movable_call_once() {
    let f = move || 9i64;
    let mut slot = mk_slot();
    let handle: StackBoxDynFnOnce_0<_, i64, Movable> = slot.stackbox(f).into_dyn();
    assert_eq!(handle.call(), 9);
}

#[test]
fn drop_without_call_destroys_callable() {
    let rc = Rc::new(());
    let captured = rc.clone();
    let f = move || drop(captured);
    let mut slot = mk_slot();
    let handle: StackBoxDynFnOnce_0<_, (), NoAutoTraits> = slot.stackbox(f).into_dyn();
    assert_eq!(Rc::strong_count(&rc), 2);
    drop(handle);
    assert_eq!(Rc::strong_count(&rc), 1);
}
