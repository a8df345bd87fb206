//! The trusted backing of an erased handle.
//!
//! An erased handle must keep hold of the borrow it was made from while
//! hiding the borrow's static type. Safe Rust offers exactly one such vessel,
//! the trait object `dyn core::any::Any`, which the verifier cannot express;
//! the two carrier types below therefore hide one borrow each behind
//! `#[verifier::external_body]`, and a small set of trusted functions makes,
//! converts and restores carriers. Everything else in the crate is verified
//! against the contracts written here.

use vstd::prelude::*;

verus! {

/// A shared borrow of one value whose static type has been erased.
///
/// Opaque to the verifier: it holds a `&'a dyn core::any::Any`.
#[verifier::external_body]
pub struct ErasedRef<'a> {
    it: &'a dyn core::any::Any,
}

impl<'a> Clone for ErasedRef<'a> {
    /// Relies on the fact that copying a shared borrow yields the same borrow.
    #[verifier::external_body]
    fn clone(&self) -> (r: Self)
        ensures
            r == *self,
    {
        ErasedRef { it: self.it }
    }
}

impl<'a> Copy for ErasedRef<'a> {

}

/// An exclusive borrow of one value whose static type has been erased.
///
/// Opaque to the verifier: it holds a `&'a mut dyn core::any::Any`.
#[verifier::external_body]
pub struct ErasedMut<'a> {
    it: &'a mut dyn core::any::Any,
}

/// Relies on the compiler's coercion of `&'a T` into `&'a dyn Any`, and on
/// `core::ptr::from_ref` and `pointer::addr`: the second component is the
/// address of the referenced value.
#[verifier::external_body]
pub(crate) fn erase_parts<'a, T: 'static>(reference: &'a T) -> (p: (ErasedRef<'a>, usize)) {
    let it: &'a dyn core::any::Any = reference;
    (ErasedRef { it }, core::ptr::from_ref(reference).addr())
}

/// Relies on `<dyn Any>::downcast_ref`: the result is the borrow the carrier
/// was made from, re-typed, when the erased type is `T`, and `None` otherwise.
#[verifier::external_body]
pub(crate) fn downcast_shared<'a, T: 'static>(erased: ErasedRef<'a>) -> (r: Option<&'a T>) {
    erased.it.downcast_ref::<T>()
}

/// Relies on `slice::as_ptr` and `pointer::addr` for the address of a
/// slice's first element, and on the layout of slices for the bound: a slice
/// occupies `len * size_of::<T>()` contiguous bytes of one allocation, and
/// the address one past an allocation's end is still representable, so the
/// span cannot wrap around the address space.
#[verifier::external_body]
pub(crate) fn slice_base_addr<T: 'static>(slice: &[T]) -> (a: usize)
    ensures
        a + slice@.len() * vstd::layout::size_of::<T>() <= usize::MAX,
{
    slice.as_ptr().addr()
}

/// Relies on the compiler's coercion of `&'a mut T` into `&'a mut dyn Any`,
/// and on `core::ptr::from_mut` and `pointer::addr`: the second component is
/// the address of the referenced value.
#[verifier::external_body]
pub(crate) fn erase_parts_mut<'a, T: 'static>(reference: &'a mut T) -> (p: (ErasedMut<'a>, usize)) {
    let addr = core::ptr::from_mut(&mut *reference).addr();
    let it: &'a mut dyn core::any::Any = reference;
    (ErasedMut { it }, addr)
}

/// Relies on the reborrow of an exclusive borrow as a shared one: the shared
/// carrier holds the same borrow for the scope of `erased`'s own borrow, and
/// the exclusive carrier cannot be used again before that scope ends.
#[verifier::external_body]
pub(crate) fn as_shared<'s>(erased: &'s ErasedMut<'_>) -> (r: ErasedRef<'s>) {
    ErasedRef { it: &*erased.it }
}

/// Relies on `<dyn Any>::downcast_mut`: the result reborrows the carrier's
/// borrow, re-typed, when the erased type is `T`, and is `None` otherwise.
/// The carrier itself is left as it was.
#[verifier::external_body]
pub(crate) fn downcast_exclusive<'s, T: 'static>(erased: &'s mut ErasedMut<'_>) -> (r: Option<
    &'s mut T,
>)
    ensures
        *final(erased) == *old(erased),
{
    erased.it.downcast_mut::<T>()
}

/// Relies on `slice::iter_mut`, the coercion of each `&'a mut T` into
/// `&'a mut dyn Any`, `slice::as_mut_ptr` and `pointer::addr`. The carriers
/// hold the slice's elements in order, one each. The address is the first
/// element's; a slice occupies `len * size_of::<T>()` contiguous bytes of one
/// allocation, and the address one past an allocation's end is still
/// representable, so the span cannot wrap around the address space.
#[verifier::external_body]
pub(crate) fn erase_slice_parts_mut<'a, T: 'static>(slice: &'a mut [T]) -> (p: (
    Vec<ErasedMut<'a>>,
    usize,
))
    ensures
        p.0@.len() == old(slice)@.len(),
        p.1 + old(slice)@.len() * vstd::layout::size_of::<T>() <= usize::MAX,
{
    let addr = slice.as_mut_ptr().addr();
    let carriers = slice
        .iter_mut()
        .map(|reference| {
            let it: &'a mut dyn core::any::Any = reference;
            ErasedMut { it }
        })
        .collect();
    (carriers, addr)
}

/// Relies on `Vec` indexing and the reborrow of an exclusive borrow: the
/// result reborrows the `index`-th carrier's borrow, and the vector itself is
/// left as it was.
#[verifier::external_body]
pub(crate) fn reborrow_elem<'s, 'a>(carriers: &'s mut Vec<ErasedMut<'a>>, index: usize) -> (r:
    ErasedMut<'s>)
    requires
        index < carriers@.len(),
    ensures
        final(carriers)@ == old(carriers)@,
    no_unwind
{
    let it: &'s mut dyn core::any::Any = &mut *carriers[index].it;
    ErasedMut { it }
}

/// Relies on `slice::iter_mut` over the vector's `[start, end)` run: one
/// reborrowed carrier per element, in order, and the vector itself is left as
/// it was.
#[verifier::external_body]
pub(crate) fn reborrow_range<'s, 'a>(
    carriers: &'s mut Vec<ErasedMut<'a>>,
    start: usize,
    end: usize,
) -> (r: Vec<ErasedMut<'s>>)
    requires
        start <= end,
        end <= carriers@.len(),
    ensures
        final(carriers)@ == old(carriers)@,
        r@.len() == end - start,
    no_unwind
{
    carriers[start..end]
        .iter_mut()
        .map(|carrier| {
            let it: &'s mut dyn core::any::Any = &mut *carrier.it;
            ErasedMut { it }
        })
        .collect()
}

/// Relies on `slice::iter_mut` and `<dyn Any>::downcast_mut` over every
/// carrier: every element reborrowed and re-typed, in order, when the erased
/// type of every carrier is `T`, and `None` if any one's is not. The vector
/// itself is left as it was.
#[verifier::external_body]
pub(crate) fn downcast_exclusive_all<'s, T: 'static>(carriers: &'s mut Vec<ErasedMut<'_>>) -> (r:
    Option<Vec<&'s mut T>>)
    ensures
        final(carriers)@ == old(carriers)@,
        r matches Some(v) ==> v@.len() == old(carriers)@.len(),
    no_unwind
{
    carriers.iter_mut().map(|carrier| carrier.it.downcast_mut::<T>()).collect()
}

/// Relies on `<dyn Any>::downcast_mut`, with the carrier consumed: the
/// returned borrow, present exactly when the erased type is `T`, keeps the
/// whole scope of the borrow the carrier was made from.
#[verifier::external_body]
pub(crate) fn downcast_consuming<'a, T: 'static>(erased: ErasedMut<'a>) -> (r: Option<
    &'a mut T,
>) {
    let it: &'a mut dyn core::any::Any = erased.it;
    it.downcast_mut::<T>()
}

} // verus!
