//! The runtime type tag.
//!
//! A tag is a `core::any::TypeId`: a process-wide identifier that is unique
//! per static type and supports only equality. The verifier is told about the
//! type here, and one trusted function exposes its equality test.

use vstd::prelude::*;

verus! {

#[verifier::external_type_specification]
#[verifier::external_body]
pub struct ExTypeId(core::any::TypeId);

pub assume_specification<T: ?Sized + 'static>[ core::any::TypeId::of::<T> ]() -> (r:
    core::any::TypeId);

/// Relies on `TypeId`'s `PartialEq`: two type ids compare equal at run time
/// exactly when they are the same id value.
#[verifier::external_body]
pub(crate) fn type_id_eq(a: &core::any::TypeId, b: &core::any::TypeId) -> (r: bool)
    ensures
        r == (*a == *b),
{
    a == b
}

} // verus!
