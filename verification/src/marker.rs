//! Capability markers: zero-sized types that record, at the type level,
//! which thread-affinity claims an erased handle was constructed with.
//!
//! An erased handle no longer names its concrete pointee type, so whether
//! the handle may legally move across threads (`Send`) or be shared across
//! threads (`Sync`) can no longer be read off that type.  Instead, the
//! claim is recorded as a marker type parameter, and every coercion that
//! constructs an erased handle demands, at construction time, that the
//! concrete pointee actually satisfies each claimed capability.

use vstd::prelude::*;

verus! {

/// The closed set of valid auto-trait claims: nothing, cross-thread
/// movability, cross-thread shareability, or both.
pub trait RepresentsAutoTraits {

}

/// Claims no thread-affinity capability at all (the default).
#[derive(Debug)]
pub struct NoAutoTraits {}

/// Claims cross-thread movability (`Send`) of the erased pointee.
#[derive(Debug)]
pub struct Movable {}

/// Claims cross-thread shareability (`Sync`) of the erased pointee.
#[derive(Debug)]
pub struct Shareable {}

/// Claims both cross-thread movability and shareability.
#[derive(Debug)]
pub struct MovableShareable {}

impl RepresentsAutoTraits for NoAutoTraits {

}

impl RepresentsAutoTraits for Movable {

}

impl RepresentsAutoTraits for Shareable {

}

impl RepresentsAutoTraits for MovableShareable {

}

} // verus!
