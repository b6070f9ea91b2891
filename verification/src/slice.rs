//! Slice handles: owning handles over a contiguous run of items.
//!
//! A `StackBox<Vec<Item>>` plays the role of an owning handle over a slice
//! of items: its view of views, `self@@`, is the sequence of owned items.
//! Ownership of the run can be partitioned ([`StackBox::stackbox_split_at`]),
//! shrunk from either end ([`StackBox::pop_front`], [`StackBox::pop_back`]),
//! or collapsed onto a single element ([`StackBox::assert_singleton`]).

use vstd::prelude::*;

use crate::stackbox::StackBox;

verus! {

/// Relies on the standard library's conversion of an array into a vector
/// (`From<[T; N]> for Vec<T>`): the vector holds exactly the array's
/// elements, in order.
#[verifier::external_body]
fn vec_from_array<T, const N: usize>(a: [T; N]) -> (v: Vec<T>)
    ensures
        v@ == a@,
{
    a.into()
}

impl<Item> Default for StackBox<Vec<Item>> {
    /// The empty slice handle.
    fn default() -> (r: Self)
        ensures
            r@@ == Seq::<Item>::empty(),
    {
        StackBox::from_value(Vec::new())
    }
}

impl<Item> StackBox<Vec<Item>> {
    /// The number of items the handle owns.
    pub fn len(&self) -> (r: usize)
        ensures
            r == self@@.len(),
    {
        self.borrow().len()
    }

    /// Whether the handle owns no items.
    pub fn is_empty(&self) -> (r: bool)
        ensures
            r == (self@@.len() == 0),
    {
        self.len() == 0
    }

    /// Converts a handle that owns exactly one item into a handle over that
    /// item.  Callers must establish that the length is 1; any other length
    /// is a caller logic error, not a recoverable state.
    pub fn assert_singleton(self) -> (r: StackBox<Item>)
        requires
            self@@.len() == 1,
        ensures
            r@ == self@@[0],
    {
        let mut v: Vec<Item> = self.into_inner();
        match v.pop() {
            Some(x) => StackBox::from_value(x),
            None => vstd::pervasive::unreached(),
        }
    }

    /// Pops the handle's first item, shrinking the owned run by one.
    /// On an empty handle there is no value to give and the handle is left
    /// unchanged.
    pub fn pop_front(&mut self) -> (r: Option<Item>)
        ensures
            old(self)@@.len() == 0 ==> r is None && final(self)@@ == old(self)@@,
            old(self)@@.len() > 0 ==> r == Some(old(self)@@[0]) && final(self)@@ == old(
                self,
            )@@.drop_first(),
    {
        let v = self.borrow_mut();
        if v.len() == 0 {
            None
        } else {
            let x = v.remove(0);
            proof {
                assert(old(self)@@.remove(0) =~= old(self)@@.drop_first());
            }
            Some(x)
        }
    }

    /// Pops the handle's last item, shrinking the owned run by one.
    /// On an empty handle there is no value to give and the handle is left
    /// unchanged.
    pub fn pop_back(&mut self) -> (r: Option<Item>)
        ensures
            old(self)@@.len() == 0 ==> r is None && final(self)@@ == old(self)@@,
            old(self)@@.len() > 0 ==> r == Some(old(self)@@.last()) && final(self)@@ == old(
                self,
            )@@.drop_last(),
    {
        let v = self.borrow_mut();
        if v.len() == 0 {
            None
        } else {
            v.pop()
        }
    }

    /// Older name for [`StackBox::pop_front`], kept as an alias.
    pub fn stackbox_pop(&mut self) -> (r: Option<Item>)
        ensures
            old(self)@@.len() == 0 ==> r is None && final(self)@@ == old(self)@@,
            old(self)@@.len() > 0 ==> r == Some(old(self)@@[0]) && final(self)@@ == old(
                self,
            )@@.drop_first(),
    {
        self.pop_front()
    }

    /// Partitions ownership of the run at `mid`: the first handle owns the
    /// items before `mid`, the second the items from `mid` on.  Callers must
    /// establish `mid <= len`; a larger `mid` is a caller logic error.
    pub fn stackbox_split_at(self, mid: usize) -> (r: (StackBox<Vec<Item>>, StackBox<Vec<Item>>))
        requires
            mid <= self@@.len(),
        ensures
            r.0@@ == self@@.subrange(0, mid as int),
            r.1@@ == self@@.subrange(mid as int, self@@.len() as int),
    {
        let mut v: Vec<Item> = self.into_inner();
        let tl: Vec<Item> = v.split_off(mid);
        (StackBox::from_value(v), StackBox::from_value(tl))
    }
}

/// Split-reassembly law: splitting a sequence at any `mid` within bounds
/// yields a head of length `mid` and a tail of length `len - mid` whose
/// concatenation is the original sequence — exactly the two parts that
/// [`StackBox::stackbox_split_at`] hands back.
pub proof fn lemma_split_reassembly<Item>(s: Seq<Item>, mid: int)
    requires
        0 <= mid <= s.len(),
    ensures
        s.subrange(0, mid).len() == mid,
        s.subrange(mid, s.len() as int).len() == s.len() - mid,
        s.subrange(0, mid) + s.subrange(mid, s.len() as int) == s,
{
    assert(s.subrange(0, mid) + s.subrange(mid, s.len() as int) =~= s);
}

/// Fixed-size arrays whose handles can be coerced, losslessly and in order,
/// into slice handles.
pub trait IsArray: Sized {
    type Item;

    /// The array's items as a sequence.
    spec fn items(self) -> Seq<Self::Item>;

    /// Coerces a handle over the whole array into a handle over its items.
    fn into_slice(this: StackBox<Self>) -> (r: StackBox<Vec<Self::Item>>)
        ensures
            r@@ == this@.items(),
    ;
}

impl<T, const N: usize> IsArray for [T; N] {
    type Item = T;

    open spec fn items(self) -> Seq<T> {
        self@
    }

    fn into_slice(this: StackBox<[T; N]>) -> (r: StackBox<Vec<T>>) {
        StackBox::from_value(vec_from_array(this.into_inner()))
    }
}

impl<A: IsArray> StackBox<A> {
    /// Coerces a handle over a fixed-size array into a handle over its
    /// items, without changing which values are owned or their order.
    pub fn into_slice(self) -> (r: StackBox<Vec<A::Item>>)
        ensures
            r@@ == self@.items(),
    {
        A::into_slice(self)
    }
}

} // verus!
