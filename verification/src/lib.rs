//! Type-erased borrowed handles.
//!
//! Four handle types wrap a borrowed value, or a borrowed run of contiguous
//! values, whose static type has been hidden: a shared reference
//! ([`AnyRef`]), an exclusive reference ([`AnyMut`]), a shared view of
//! contiguous elements ([`AnySliceRef`]) and an exclusive view of contiguous
//! elements ([`AnySliceMut`]). Each handle records a runtime type tag;
//! restoring a handle to a concrete type succeeds exactly when the requested
//! type matches the tag, and yields an absent value otherwise — a mismatch is
//! an expected outcome, never a fault. Views also record their element count,
//! the byte stride between elements and the address of the first element, so
//! that they can be measured, indexed and sub-ranged without the element
//! type.
//!
//! A handle never copies or owns the values it refers to: restoring yields
//! the original borrow itself, and a write through a restored exclusive
//! borrow lands in the original binding. A handle is bookkeeping around a
//! borrow, gone when its borrow scope ends, with no effects of its own.
//! Exclusive handles cannot be copied and may be downgraded to shared ones;
//! the shared reference handle copies freely, and the shared view clones.
//!
//! A view keeps one erased borrow per element, so erasing, cloning, restoring
//! or sub-ranging a view costs time and memory linear in its length.

mod any_mut;
mod any_ref;
mod any_slice_mut;
mod any_slice_ref;
mod backing;
mod range;
mod tag;

pub use any_mut::AnyMut;
pub use any_ref::AnyRef;
pub use any_slice_mut::AnySliceMut;
pub use any_slice_ref::AnySliceRef;
pub use range::constrain_range;
pub use range::normalize_bounds;
