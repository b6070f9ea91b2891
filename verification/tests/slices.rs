//! Slice handles: splitting, popping, singleton conversion, iteration.

use stackbox::mk_slot;
use stackbox::StackBox;

#[test]
fn doctest_for_miri() {
    let mut slot = mk_slot();
    let boxed_slice = slot
        .stackbox([String::from("Hello, "), String::from("World!")])
        .into_slice();
    let mut iter = boxed_slice.into_iter();
    while let Some(s) = iter.next() {
        println!("{}", s);
        drop::<String>(s);
    }
}

/// The concrete pop scenario: over `[10, 20, 30]`, `pop_front` gives 10 and
/// leaves length 2, `pop_back` then gives 30 and leaves length 1, and the
/// singleton conversion extracts 20.
#[test]
fn pop_scenario() {
    let mut slot = mk_slot();
    let handle = StackBox::new_in(&mut slot, [10, 20, 30]);
    let mut slice = handle.into_slice();
    assert_eq!(slice.pop_front(), Some(10));
    assert_eq!(slice.len(), 2);
    assert_eq!(slice.pop_back(), Some(30));
    assert_eq!(slice.len(), 1);
    assert_eq!(slice.assert_singleton().into_inner(), 20);
}

/// Pops on an empty slice handle give no value and leave the handle
/// unchanged, still empty.
#[test]
fn pop_empty() {
    let mut slice: StackBox<Vec<i32>> = StackBox::default();
    assert_eq!(slice.pop_front(), None);
    assert_eq!(slice.pop_back(), None);
    assert!(slice.is_empty());
    assert_eq!(slice.len(), 0);
}

#[test]
fn pop_front_doc_example() {
    let mut slot = mk_slot();
    let arr = slot.stackbox([0, 1, 2]);
    let mut slice = arr.into_slice();
    assert_eq!(slice.pop_front(), Some(0));
}

#[test]
fn stackbox_pop_alias() {
    let mut slot = mk_slot();
    let mut slice = slot.stackbox([4u64, 5u64]).into_slice();
    assert_eq!(slice.stackbox_pop(), Some(4));
    assert_eq!(slice.stackbox_pop(), Some(5));
    assert_eq!(slice.stackbox_pop(), None);
}

/// Splitting at `mid` partitions the items: the head holds the first `mid`
/// of them, the tail the rest, and together they are the original run.
#[test]
fn split_at_middle() {
    let mut slot = mk_slot();
    let slice = slot.stackbox([1, 2, 3, 4]).into_slice();
    let (mut hd, mut tl) = slice.stackbox_split_at(2);
    assert_eq!(hd.len(), 2);
    assert_eq!(tl.len(), 2);
    assert_eq!(hd.pop_front(), Some(1));
    assert_eq!(hd.pop_front(), Some(2));
    assert_eq!(hd.pop_front(), None);
    assert_eq!(tl.pop_front(), Some(3));
    assert_eq!(tl.pop_front(), Some(4));
    assert_eq!(tl.pop_front(), None);
}

#[test]
fn split_at_zero_and_len() {
    let mut slot = mk_slot();
    let slice = slot.stackbox([7u8, 8u8]).into_slice();
    let (hd, tl) = slice.stackbox_split_at(0);
    assert_eq!(hd.len(), 0);
    assert_eq!(tl.len(), 2);

    let mut slot = mk_slot();
    let slice = slot.stackbox([7u8, 8u8]).into_slice();
    let (hd, tl) = slice.stackbox_split_at(2);
    assert_eq!(hd.len(), 2);
    assert_eq!(tl.len(), 0);
}

#[test]
fn split_reassembles_original() {
    let original = vec![10u64, 11, 12, 13, 14];
    for mid in 0..=original.len() {
        let mut slot = mk_slot();
        let mut vec_copy = Vec::new();
        for x in &original {
            vec_copy.push(*x);
        }
        let slice = StackBox::new_in(&mut slot, vec_copy);
        let (mut hd, mut tl) = slice.stackbox_split_at(mid);
        let mut rebuilt = Vec::new();
        while let Some(x) = hd.pop_front() {
            rebuilt.push(x);
        }
        while let Some(x) = tl.pop_front() {
            rebuilt.push(x);
        }
        assert_eq!(rebuilt, original);
    }
}

#[test]
fn into_slice_keeps_order() {
    let mut slot = mk_slot();
    let mut slice = slot.stackbox([5i64, 6i64]).into_slice();
    assert_eq!(slice.len(), 2);
    assert_eq!(slice.pop_front(), Some(5));
    assert_eq!(slice.pop_front(), Some(6));
}

#[test]
fn iter_both_ends() {
    let mut slot = mk_slot();
    let slice = slot.stackbox([1, 2, 3]).into_slice();
    let mut iter = slice.into_iter();
    assert_eq!(iter.len(), 3);
    assert_eq!(iter.size_hint(), (3, Some(3)));
    assert_eq!(iter.next(), Some(1));
    assert_eq!(iter.next_back(), Some(3));
    assert_eq!(iter.len(), 1);
    assert_eq!(iter.next(), Some(2));
    assert_eq!(iter.next(), None);
    assert_eq!(iter.next_back(), None);
    assert_eq!(iter.size_hint(), (0, Some(0)));
}
