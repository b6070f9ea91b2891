//! By-value iteration over a slice handle.
//!
//! The iterator owns the handle and gives the items out one at a time, from
//! either end; each item is moved out exactly once.

use vstd::prelude::*;

use crate::stackbox::StackBox;

verus! {

/// A by-value iterator over the items a slice handle owns.  Its view is the
/// sequence of items not yet given out.
pub struct Iter<Item> {
    rest: StackBox<Vec<Item>>,
}

impl<Item> View for Iter<Item> {
    type V = Seq<Item>;

    closed spec fn view(&self) -> Seq<Item> {
        self.rest@@
    }
}

impl<Item> Iter<Item> {
    /// The next item from the front, if any is left.
    pub fn next(&mut self) -> (r: Option<Item>)
        ensures
            old(self)@.len() == 0 ==> r is None && final(self)@ == old(self)@,
            old(self)@.len() > 0 ==> r == Some(old(self)@[0]) && final(self)@ == old(
                self,
            )@.drop_first(),
    {
        self.rest.pop_front()
    }

    /// The next item from the back, if any is left.
    pub fn next_back(&mut self) -> (r: Option<Item>)
        ensures
            old(self)@.len() == 0 ==> r is None && final(self)@ == old(self)@,
            old(self)@.len() > 0 ==> r == Some(old(self)@.last()) && final(self)@ == old(
                self,
            )@.drop_last(),
    {
        self.rest.pop_back()
    }

    /// How many items are left.
    pub fn len(&self) -> (r: usize)
        ensures
            r == self@.len(),
    {
        self.rest.len()
    }

    /// The exact number of items left, as a lower and upper bound.
    pub fn size_hint(&self) -> (r: (usize, Option<usize>))
        ensures
            r.0 == self@.len(),
            r.1 == Some(r.0),
    {
        let n = self.rest.len();
        (n, Some(n))
    }
}

impl<Item> StackBox<Vec<Item>> {
    /// Turns the handle into a by-value iterator over its items.
    pub fn into_iter(self) -> (r: Iter<Item>)
        ensures
            r@ == self@@,
    {
        Iter { rest: self }
    }
}

} // verus!
