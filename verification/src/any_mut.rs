//! The type-erased exclusive reference.

use crate::any_ref::AnyRef;
use crate::backing::as_shared;
use crate::backing::downcast_consuming;
use crate::backing::downcast_exclusive;
use crate::backing::downcast_shared;
use crate::backing::erase_parts_mut;
use crate::backing::ErasedMut;
use crate::tag::type_id_eq;
use core::any::TypeId;
use vstd::prelude::*;

verus! {

/// A type-erased exclusive reference.
///
/// An exclusive borrow of one value, like `&'a mut T`, except that `T` has
/// been erased. The handle records the borrow itself (opaque to the
/// verifier), the address of the referenced value, and the tag of the erased
/// type. Unlike [`AnyRef`], the handle cannot be copied: while it lives, it is
/// the only way to the value, and it may be downgraded to any number of
/// shared handles whose scope is bounded by the borrow taken for them.
pub struct AnyMut<'a> {
    erased: ErasedMut<'a>,
    addr: usize,
    type_id: TypeId,
}

impl<'a> AnyMut<'a> {
    /// The hidden borrow the handle was made from.
    pub closed spec fn backing(self) -> ErasedMut<'a> {
        self.erased
    }

    /// The address of the referenced value.
    pub closed spec fn address(self) -> usize {
        self.addr
    }

    /// The tag of the erased static type.
    pub closed spec fn tag(self) -> TypeId {
        self.type_id
    }

    /// Build a handle from an already-erased borrow, its address and its tag.
    /// The slice handles use this to hand out single elements.
    pub(crate) fn from_parts(erased: ErasedMut<'a>, addr: usize, type_id: TypeId) -> (r: Self)
        ensures
            r.backing() == erased,
            r.address() == addr,
            r.tag() == type_id,
    {
        AnyMut { erased, addr, type_id }
    }

    /// Erase the type of an exclusive reference.
    ///
    /// Total: the reference is valid by construction, so nothing is checked.
    /// The handle keeps the original borrow's scope; the referenced value can
    /// be reached again only by restoring the type.
    pub fn erase<T: 'static>(reference: &'a mut T) -> (r: AnyMut<'a>) {
        let (erased, addr) = erase_parts_mut(reference);
        AnyMut { erased, addr, type_id: TypeId::of::<T>() }
    }

    /// Restore to a shared reference of type `T`.
    ///
    /// Returns the borrow, re-typed and read-only, exactly when `T` is the
    /// erased type; on any other `T` it returns `None`. A mismatch is an
    /// expected outcome, not a fault. The handle's tag binds the erased type
    /// at run time; the verifier cannot relate it to the type parameter, so
    /// this guarantee is exercised by the test suite rather than stated here.
    pub fn unerase<T: 'static>(&self) -> (r: Option<&T>) {
        if self.contains::<T>() {
            downcast_shared(as_shared(&self.erased))
        } else {
            None
        }
    }

    /// Restore to an exclusive reference of type `T`.
    ///
    /// Behaves as [`AnyMut::unerase`], but the returned borrow permits
    /// mutation and takes the handle's exclusivity for its scope: the handle
    /// itself, unchanged, becomes usable again when the borrow ends.
    pub fn unerase_mut<T: 'static>(&mut self) -> (r: Option<&mut T>)
        ensures
            final(self).backing() == old(self).backing(),
            final(self).address() == old(self).address(),
            final(self).tag() == old(self).tag(),
    {
        if self.contains::<T>() {
            downcast_exclusive(&mut self.erased)
        } else {
            None
        }
    }

    /// Restore to an exclusive reference of type `T`, consuming the handle.
    ///
    /// Behaves as [`AnyMut::unerase_mut`], except that the handle is given up
    /// and the returned borrow keeps the whole scope of the borrow that was
    /// originally erased, rather than being bounded by the handle's own.
    pub fn unerase_into<T: 'static>(self) -> (r: Option<&'a mut T>) {
        if self.contains::<T>() {
            downcast_consuming(self.erased)
        } else {
            None
        }
    }

    /// Downgrade to a shared handle over the same value.
    ///
    /// May be called any number of times; each shared handle's scope is
    /// bounded by the borrow of `self` taken for it, and while any of them
    /// lives the exclusive handle cannot be used.
    pub fn borrow(&self) -> (r: AnyRef<'_>)
        ensures
            r.address() == self.address(),
            r.tag() == self.tag(),
    {
        AnyRef::from_parts(as_shared(&self.erased), self.addr, self.type_id)
    }

    /// The address of the referenced value.
    pub fn as_ptr(&self) -> (r: usize)
        ensures
            r == self.address(),
    {
        self.addr
    }

    /// The address of the referenced value.
    pub fn as_mut_ptr(&mut self) -> (r: usize)
        ensures
            r == old(self).address(),
            *final(self) == *old(self),
    {
        self.addr
    }

    /// Was the original referee of type `T`? True exactly when the recorded
    /// tag equals the tag of `T`.
    pub fn contains<T: 'static>(&self) -> (r: bool) {
        type_id_eq(&self.type_id, &TypeId::of::<T>())
    }

    /// The tag of the erased static type.
    pub fn type_id(&self) -> (r: &TypeId)
        ensures
            *r == self.tag(),
    {
        &self.type_id
    }
}

} // verus!
