//! Type-level enumeration of the cross-thread-shareability claims an
//! erased handle may carry: every valid auto-trait marker is a valid choice.

use vstd::prelude::*;

use crate::marker::Movable;
use crate::marker::MovableShareable;
use crate::marker::NoAutoTraits;
use crate::marker::RepresentsAutoTraits;
use crate::marker::Shareable;

verus! {

/// A marker usable as the shareability parameter of an erased handle.
pub trait T: RepresentsAutoTraits {

}

impl T for NoAutoTraits {

}

impl T for Movable {

}

impl T for Shareable {

}

impl T for MovableShareable {

}

} // verus!
