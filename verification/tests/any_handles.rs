//! The owning-any handle: type identity, downcasting, capability claims.

use stackbox::any::StackBoxDynAny;
use stackbox::erased::Erased;
use stackbox::erased::GetVTable;
use stackbox::marker::Movable;
use stackbox::marker::MovableShareable;
use stackbox::marker::NoAutoTraits;
use stackbox::marker::Shareable;
use stackbox::mk_slot;
use stackbox::StackBox;

#[test]
fn coerce_send_sync_into_send_sync_any() {
    let mut slot = mk_slot();
    let stackbox = slot.stackbox(());
    let _: StackBoxDynAny<MovableShareable> = stackbox.into_dyn();
}

#[test]
fn coerce_into_movable_any() {
    let mut slot = mk_slot();
    let stackbox = slot.stackbox(0u8);
    let _: StackBoxDynAny<Movable> = stackbox.into_dyn();
}

#[test]
fn coerce_into_shareable_any() {
    let mut slot = mk_slot();
    let stackbox = slot.stackbox('x');
    let _: StackBoxDynAny<Shareable> = stackbox.into_dyn();
}

#[test]
fn any_is_and_downcast() {
    let mut slot = mk_slot();
    let mut stackbox = slot.stackbox(42u64);
    let mut dyn_any: StackBoxDynAny<NoAutoTraits> = stackbox.into_dyn();
    assert!(dyn_any.is::<u64>());
    assert!(!dyn_any.is::<bool>());
    let r: &u64 = dyn_any.downcast_ref().unwrap();
    assert_eq!(*r, 42);
    let m: &mut u64 = dyn_any.downcast_mut().unwrap();
    assert_eq!(*m, 42);
    stackbox = dyn_any.downcast().unwrap();
    assert_eq!(stackbox.into_inner(), 42);
}

/// Round-trip downcast: erasing a value and downcasting to its own type
/// succeeds and yields the value back; downcasting to any other type fails
/// with the handle intact, still answering for its original type.
#[test]
fn downcast_round_trip() {
    let mut slot = mk_slot();
    let boxed = StackBox::new_in(&mut slot, 42u64);
    let dyn_any: StackBoxDynAny<NoAutoTraits> = boxed.into_dyn();
    let dyn_any = match dyn_any.downcast::<bool>() {
        Ok(_) => panic!("downcast to a foreign type must fail"),
        Err(handle) => handle,
    };
    assert!(dyn_any.is::<u64>());
    let recovered = dyn_any.downcast::<u64>().ok().unwrap();
    assert_eq!(recovered.into_inner(), 42);
}

#[test]
fn downcast_ref_mismatch_is_none() {
    let mut slot = mk_slot();
    let dyn_any: StackBoxDynAny<NoAutoTraits> = slot.stackbox(true).into_dyn();
    assert!(dyn_any.downcast_ref::<u64>().is_none());
    assert_eq!(*dyn_any.downcast_ref::<bool>().unwrap(), true);
}

#[test]
fn downcast_mut_updates() {
    let mut slot = mk_slot();
    let mut dyn_any: StackBoxDynAny<NoAutoTraits> = slot.stackbox(1u64).into_dyn();
    *dyn_any.downcast_mut::<u64>().unwrap() = 5;
    assert_eq!(dyn_any.downcast::<u64>().ok().unwrap().into_inner(), 5);
}

#[test]
fn heterogeneous_reassignment() {
    let mut slot_a = mk_slot();
    let mut dyn_any: StackBoxDynAny<NoAutoTraits> = slot_a.stackbox(7i32).into_dyn();
    assert!(dyn_any.is::<i32>());
    let mut slot_b = mk_slot();
    dyn_any = slot_b.stackbox('z').into_dyn();
    assert!(dyn_any.is::<char>());
    assert_eq!(dyn_any.downcast::<char>().ok().unwrap().into_inner(), 'z');
}

#[test]
fn erased_unit_round_trip() {
    let mut slot = mk_slot();
    let dyn_any: StackBoxDynAny<NoAutoTraits> = slot.stackbox(()).into_dyn();
    assert!(dyn_any.is::<()>());
    let unit: () = dyn_any.downcast::<()>().ok().unwrap().into_inner();
    let _: () = unit;
}

#[allow(non_snake_case)]
#[test]
fn as_Any_views() {
    let mut slot = mk_slot();
    let mut dyn_any: StackBoxDynAny<NoAutoTraits> = slot.stackbox(3u32).into_dyn();
    match dyn_any.as_Any() {
        Erased::U32(v) => assert_eq!(*v, 3),
        _ => panic!("erased form must be the pointee's own"),
    }
    match dyn_any.as_Any_mut() {
        Erased::U32(v) => *v = 4,
        _ => panic!("erased form must be the pointee's own"),
    }
    assert!(dyn_any.is::<u32>());
    assert!(dyn_any.is::<u32>());
    assert_eq!(dyn_any.downcast::<u32>().ok().unwrap().into_inner(), 4);
}

#[test]
fn type_ids_distinct() {
    let ids = [
        <() as GetVTable>::type_id(),
        bool::type_id(),
        char::type_id(),
        u8::type_id(),
        u32::type_id(),
        u64::type_id(),
        usize::type_id(),
        i32::type_id(),
        i64::type_id(),
    ];
    for i in 0..ids.len() {
        for j in 0..ids.len() {
            if i != j {
                assert_ne!(ids[i], ids[j]);
            }
        }
    }
}

#[test]
fn type_id_matches_recorded_identity() {
    let mut slot = mk_slot();
    let dyn_any: StackBoxDynAny<NoAutoTraits> = slot.stackbox(9usize).into_dyn();
    assert_eq!(dyn_any.type_id(), usize::type_id());
}
