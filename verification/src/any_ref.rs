//! The type-erased shared reference.

use crate::backing::downcast_shared;
use crate::backing::erase_parts;
use crate::backing::ErasedRef;
use crate::tag::type_id_eq;
use core::any::TypeId;
use vstd::prelude::*;

verus! {

/// A type-erased shared reference.
///
/// A shared borrow of one value, like `&'a T`, except that `T` has been
/// erased. The handle records the borrow itself (opaque to the verifier), the
/// address of the referenced value, and the tag of the erased type; restoring
/// the borrow succeeds exactly when the requested type's tag equals the
/// recorded one. Shared handles may be copied freely.
#[derive(Clone, Copy)]
pub struct AnyRef<'a> {
    erased: ErasedRef<'a>,
    addr: usize,
    type_id: TypeId,
}

impl<'a> AnyRef<'a> {
    /// The hidden borrow the handle was made from.
    pub closed spec fn backing(self) -> ErasedRef<'a> {
        self.erased
    }

    /// The address of the referenced value.
    pub closed spec fn address(self) -> usize {
        self.addr
    }

    /// The tag of the erased static type.
    pub closed spec fn tag(self) -> TypeId {
        self.type_id
    }

    /// Build a handle from an already-erased borrow, its address and its tag.
    /// The slice handles use this to hand out single elements.
    pub(crate) fn from_parts(erased: ErasedRef<'a>, addr: usize, type_id: TypeId) -> (r: Self)
        ensures
            r.backing() == erased,
            r.address() == addr,
            r.tag() == type_id,
    {
        AnyRef { erased, addr, type_id }
    }

    /// Erase the type of a shared reference.
    ///
    /// Total: the reference is valid by construction, so nothing is checked.
    /// The handle keeps the original borrow's scope; the referenced value can
    /// be reached again only by restoring the type.
    pub fn erase<T: 'static>(reference: &'a T) -> (r: AnyRef<'a>) {
        let (erased, addr) = erase_parts(reference);
        AnyRef { erased, addr, type_id: TypeId::of::<T>() }
    }

    /// Restore to a shared reference of type `T`.
    ///
    /// Returns the original borrow, re-typed, exactly when `T` is the erased
    /// type; on any other `T` it returns `None`. A mismatch is an expected
    /// outcome, not a fault. The handle's tag binds the erased type at run
    /// time; the verifier cannot relate it to the type parameter, so this
    /// guarantee is exercised by the test suite rather than stated here.
    pub fn unerase<T: 'static>(&self) -> (r: Option<&T>) {
        if self.contains::<T>() {
            downcast_shared(self.erased)
        } else {
            None
        }
    }

    /// Restore to a shared reference of type `T`, consuming the handle.
    ///
    /// Behaves as [`AnyRef::unerase`], except that the handle is given up and
    /// the returned borrow keeps the whole scope of the borrow that was
    /// originally erased, rather than being bounded by the handle's own.
    pub fn unerase_into<T: 'static>(self) -> (r: Option<&'a T>) {
        if self.contains::<T>() {
            downcast_shared(self.erased)
        } else {
            None
        }
    }

    /// The address of the referenced value.
    pub fn as_ptr(&self) -> (r: usize)
        ensures
            r == self.address(),
    {
        self.addr
    }

    /// Was the original referee of type `T`? True exactly when the recorded
    /// tag equals the tag of `T`.
    pub fn contains<T: 'static>(&self) -> (r: bool) {
        type_id_eq(&self.type_id, &TypeId::of::<T>())
    }

    /// The tag of the erased static type.
    pub fn type_id(&self) -> (r: &TypeId)
        ensures
            *r == self.tag(),
    {
        &self.type_id
    }
}

} // verus!
