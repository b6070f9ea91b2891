//! Stack-scoped owning handles.
//!
//! A [`StackBox`] owns a value whose backing storage is supplied by the
//! caller's lexical scope (a [`Slot`]), not by an allocator.  The value can
//! then be moved behind the handle, sliced, or coerced into a type-erased
//! owning handle, while the library guarantees that the owned value is
//! neither duplicated nor lost along the way: every handle is a move-only
//! value that gives its pointee up exactly once.

pub mod any;
pub mod dyn_traits;
pub mod erased;
pub mod fn_once;
pub mod marker;
pub mod sendness;
pub mod slice;
pub mod slice_iter;
pub mod slot;
pub mod stackbox;
pub mod syncness;

pub use slot::mk_slot;
pub use slot::Slot;
pub use stackbox::StackBox;
