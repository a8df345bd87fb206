//! The type-erased exclusive view of contiguous values.

use crate::any_mut::AnyMut;
use crate::any_ref::AnyRef;
use crate::any_slice_ref::AnySliceRef;
use crate::backing::as_shared;
use crate::backing::downcast_consuming;
use crate::backing::downcast_exclusive_all;
use crate::backing::downcast_shared;
use crate::backing::erase_slice_parts_mut;
use crate::backing::reborrow_elem;
use crate::backing::reborrow_range;
use crate::backing::ErasedMut;
use crate::backing::ErasedRef;
use crate::range::constrain_range;
use crate::tag::type_id_eq;
use core::any::TypeId;
use core::ops::RangeBounds;
use vstd::arithmetic::mul::lemma_mul_inequality;
use vstd::arithmetic::mul::lemma_mul_is_distributive_add_other_way;
use vstd::prelude::*;

verus! {

/// A type-erased exclusive view of contiguous values.
///
/// An exclusive borrow of a run of values, like `&'a mut [T]`, except that
/// the element type `T` has been erased. The handle records one erased borrow
/// per element (opaque to the verifier), the address of the first element,
/// the byte stride from one element to the next — the erased type's full
/// in-memory size — and the tag of the erased element type. Unlike
/// [`AnySliceRef`], the handle cannot be copied: while it lives it is the only
/// way to its elements, and it may be downgraded to any number of shared
/// views whose scope is bounded by the borrow taken for them.
pub struct AnySliceMut<'a> {
    elems: Vec<ErasedMut<'a>>,
    base: usize,
    stride: usize,
    type_id: TypeId,
}

impl<'a> AnySliceMut<'a> {
    /// The hidden element borrows the view was made from, in element order.
    pub closed spec fn backing(self) -> Seq<ErasedMut<'a>> {
        self.elems@
    }

    /// The address of the first element.
    pub closed spec fn base_address(self) -> usize {
        self.base
    }

    /// The byte stride between elements.
    pub closed spec fn spec_stride(self) -> usize {
        self.stride
    }

    /// The tag of the erased element type.
    pub closed spec fn tag(self) -> TypeId {
        self.type_id
    }

    /// Every element's address stays within the address space: the window
    /// `[base, base + len * stride]` does not wrap.
    #[verifier::type_invariant]
    spec fn in_address_space(self) -> bool {
        self.base + self.elems@.len() * self.stride <= usize::MAX
    }

    /// The shared view `sub` is a window of `self` that starts at element
    /// `s`: same tag, same stride, no longer than what remains of `self` from
    /// `s` on, and its base sits `s` strides into `self`. The element borrows
    /// themselves are fresh downgrades, which the verifier cannot relate.
    pub open spec fn shared_window_of<'s>(self, sub: AnySliceRef<'s>, s: int) -> bool {
        &&& 0 <= s
        &&& s + sub.backing().len() <= self.backing().len()
        &&& sub.base_address() == self.base_address() + s * self.spec_stride()
        &&& sub.spec_stride() == self.spec_stride()
        &&& sub.tag() == self.tag()
    }

    /// The exclusive view `sub` is a window of `self` that starts at element
    /// `s`; as [`AnySliceMut::shared_window_of`], for a reborrowed exclusive
    /// sub-view.
    pub open spec fn exclusive_window_of<'s>(self, sub: AnySliceMut<'s>, s: int) -> bool {
        &&& 0 <= s
        &&& s + sub.backing().len() <= self.backing().len()
        &&& sub.base_address() == self.base_address() + s * self.spec_stride()
        &&& sub.spec_stride() == self.spec_stride()
        &&& sub.tag() == self.tag()
    }

    /// Erase the element type of an exclusive slice.
    ///
    /// Total: the slice is valid by construction, so nothing is checked. The
    /// view keeps the slice's length, and its stride is the element type's
    /// full in-memory size, padding included.
    pub fn erase<T: 'static>(slice: &'a mut [T]) -> (r: AnySliceMut<'a>)
        ensures
            r.backing().len() == old(slice)@.len(),
            r.spec_stride() == vstd::layout::size_of::<T>(),
    {
        let (elems, base) = erase_slice_parts_mut(slice);
        let stride = core::mem::size_of::<T>();
        AnySliceMut { elems, base, stride, type_id: TypeId::of::<T>() }
    }

    /// Restore to shared references of element type `T`, one per element and
    /// in element order.
    ///
    /// Returns read-only borrows exactly when `T` is the erased element type;
    /// on any other `T` it returns `None`. A mismatch is an expected outcome,
    /// not a fault. The tags bind the erased type at run time; the verifier
    /// cannot relate them to the type parameter, so that guarantee is
    /// exercised by the test suite rather than stated here.
    pub fn unerase<T: 'static>(&self) -> (r: Option<Vec<&T>>)
        ensures
            r matches Some(v) ==> v@.len() == self.backing().len(),
    {
        if !self.contains::<T>() {
            return None;
        }
        let n = self.elems.len();
        let mut out: Vec<&T> = Vec::new();
        let mut i: usize = 0;
        while i < n
            invariant
                i <= n,
                n == self.elems@.len(),
                out@.len() == i,
            decreases n - i,
        {
            match downcast_shared::<T>(as_shared(&self.elems[i])) {
                Some(reference) => out.push(reference),
                None => {
                    return None;
                },
            }
            i = i + 1;
        }
        Some(out)
    }

    /// Restore to exclusive references of element type `T`, one per element
    /// and in element order.
    ///
    /// Behaves as [`AnySliceMut::unerase`], but the returned borrows permit
    /// mutation and take the view's exclusivity for their scope: the view
    /// itself, unchanged, becomes usable again when they end.
    pub fn unerase_mut<T: 'static>(&mut self) -> (r: Option<Vec<&mut T>>)
        ensures
            final(self).backing() == old(self).backing(),
            final(self).base_address() == old(self).base_address(),
            final(self).spec_stride() == old(self).spec_stride(),
            final(self).tag() == old(self).tag(),
            r matches Some(v) ==> v@.len() == old(self).backing().len(),
    {
        if !self.contains::<T>() {
            return None;
        }
        proof {
            use_type_invariant(&*self);
        }
        downcast_exclusive_all(&mut self.elems)
    }

    /// Restore to exclusive references of element type `T`, consuming the
    /// view.
    ///
    /// Behaves as [`AnySliceMut::unerase_mut`], except that the view is given
    /// up and the returned borrows keep the whole scope of the borrow that
    /// was originally erased, rather than being bounded by the view's own.
    pub fn unerase_into<T: 'static>(self) -> (r: Option<Vec<&'a mut T>>)
        ensures
            r matches Some(v) ==> v@.len() == self.backing().len(),
    {
        if !self.contains::<T>() {
            return None;
        }
        let ghost total = self.elems@.len();
        let mut carriers = self.elems;
        let mut out: Vec<&'a mut T> = Vec::new();
        while carriers.len() > 0
            invariant
                out@.len() + carriers@.len() == total,
            decreases carriers@.len(),
        {
            let carrier = carriers.remove(0);
            match downcast_consuming::<T>(carrier) {
                Some(reference) => out.push(reference),
                None => {
                    return None;
                },
            }
        }
        Some(out)
    }

    /// Downgrade to a shared view over the same elements.
    ///
    /// May be called any number of times; each shared view's scope is bounded
    /// by the borrow of `self` taken for it, and while any of them lives the
    /// exclusive view cannot be used. The result has the same length, base,
    /// stride and tag.
    pub fn borrow(&self) -> (r: AnySliceRef<'_>)
        ensures
            r.backing().len() == self.backing().len(),
            r.base_address() == self.base_address(),
            r.spec_stride() == self.spec_stride(),
            r.tag() == self.tag(),
    {
        proof {
            use_type_invariant(&*self);
        }
        let n = self.elems.len();
        let mut elems: Vec<ErasedRef> = Vec::new();
        let mut i: usize = 0;
        while i < n
            invariant
                i <= n,
                n == self.elems@.len(),
                elems@.len() == i,
            decreases n - i,
        {
            elems.push(as_shared(&self.elems[i]));
            i = i + 1;
        }
        AnySliceRef::from_parts(elems, self.base, self.stride, self.type_id)
    }

    /// Reborrow as an exclusive view with the borrow's own scope.
    ///
    /// The result has the same length, base, stride and tag; while it lives,
    /// `self` cannot be used, and `self` is unchanged when the borrow ends.
    pub fn borrow_mut(&mut self) -> (r: AnySliceMut<'_>)
        ensures
            final(self).backing() == old(self).backing(),
            final(self).base_address() == old(self).base_address(),
            final(self).spec_stride() == old(self).spec_stride(),
            final(self).tag() == old(self).tag(),
            r.backing().len() == old(self).backing().len(),
            r.base_address() == old(self).base_address(),
            r.spec_stride() == old(self).spec_stride(),
            r.tag() == old(self).tag(),
    {
        proof {
            use_type_invariant(&*self);
        }
        let base = self.base;
        let stride = self.stride;
        let tag = self.type_id;
        let n = self.elems.len();
        let elems = reborrow_range(&mut self.elems, 0, n);
        AnySliceMut { elems, base, stride, type_id: tag }
    }

    /// A single element as an erased shared reference.
    ///
    /// Present exactly for `index < len`; an absent element is reported, not
    /// tolerated, unlike a sub-view's bounds. The element keeps the view's
    /// tag and sits `index` strides past the base.
    pub fn get(&self, index: usize) -> (r: Option<AnyRef<'_>>)
        ensures
            match r {
                Some(element) => {
                    &&& index < self.backing().len()
                    &&& element.address() == self.base_address() + index * self.spec_stride()
                    &&& element.tag() == self.tag()
                },
                None => index >= self.backing().len(),
            },
    {
        if index < self.elems.len() {
            proof {
                use_type_invariant(&*self);
                lemma_mul_inequality(index as int, self.elems@.len() as int, self.stride as int);
            }
            let addr = self.base + index * self.stride;
            Some(AnyRef::from_parts(as_shared(&self.elems[index]), addr, self.type_id))
        } else {
            None
        }
    }

    /// A single element as an erased exclusive reference.
    ///
    /// As [`AnySliceMut::get`], but the element permits mutation and takes
    /// the view's exclusivity for its scope: the view itself, unchanged,
    /// becomes usable again when the element's borrow ends.
    pub fn get_mut(&mut self, index: usize) -> (r: Option<AnyMut<'_>>)
        ensures
            final(self).backing() == old(self).backing(),
            final(self).base_address() == old(self).base_address(),
            final(self).spec_stride() == old(self).spec_stride(),
            final(self).tag() == old(self).tag(),
            match r {
                Some(element) => {
                    &&& index < old(self).backing().len()
                    &&& element.address() == old(self).base_address() + index * old(
                        self,
                    ).spec_stride()
                    &&& element.tag() == old(self).tag()
                },
                None => index >= old(self).backing().len(),
            },
    {
        if index < self.elems.len() {
            proof {
                use_type_invariant(&*self);
                lemma_mul_inequality(index as int, self.elems@.len() as int, self.stride as int);
            }
            let addr = self.base + index * self.stride;
            let tag = self.type_id;
            let carrier = reborrow_elem(&mut self.elems, index);
            Some(AnyMut::from_parts(carrier, addr, tag))
        } else {
            None
        }
    }

    /// The shared sub-view under an explicit `[start, end)` window of element
    /// positions, stated exactly.
    ///
    /// Both endpoints are clamped to the view's length independently, and an
    /// inverted window counts as empty, as in [`constrain_range`]'s policy:
    /// any window is tolerated and degrades to an empty view, never a fault.
    /// The result has exactly the window's length, the same tag and stride,
    /// and a base moved `start` whole strides in; its element borrows are
    /// fresh downgrades of the window's.
    pub fn window(&self, start: usize, end: usize) -> (r: AnySliceRef<'_>)
        ensures
            r.spec_stride() == self.spec_stride(),
            r.tag() == self.tag(),
            ({
                let len = self.backing().len() as int;
                let s = if start <= len { start as int } else { len };
                let e = if end <= len { end as int } else { len };
                let n = crate::range::window_len(s, e);
                &&& r.base_address() == self.base_address() + s * self.spec_stride()
                &&& r.backing().len() == n
            }),
            self.shared_window_of(r, if start <= self.backing().len() {
                start as int
            } else {
                self.backing().len() as int
            }),
    {
        let total = self.elems.len();
        let start = if start <= total {
            start
        } else {
            total
        };
        let end = if end <= total {
            end
        } else {
            total
        };
        let end = if end < start {
            start
        } else {
            end
        };
        let n = end - start;
        let mut elems: Vec<ErasedRef> = Vec::new();
        let mut i: usize = 0;
        while i < n
            invariant
                i <= n,
                total == self.elems@.len(),
                start + n <= total,
                elems@.len() == i,
            decreases n - i,
        {
            elems.push(as_shared(&self.elems[start + i]));
            i = i + 1;
        }
        proof {
            use_type_invariant(&*self);
            lemma_mul_inequality(start as int, self.elems@.len() as int, self.stride as int);
            lemma_mul_inequality(
                start as int + n as int,
                self.elems@.len() as int,
                self.stride as int,
            );
            lemma_mul_is_distributive_add_other_way(self.stride as int, start as int, n as int);
        }
        let base = self.base + start * self.stride;
        let r = AnySliceRef::from_parts(elems, base, self.stride, self.type_id);
        proof {
            assert(self.shared_window_of(r, start as int));
        }
        r
    }

    /// The sub-view under a range of element positions, as a shared view.
    ///
    /// The range is made canonical by [`constrain_range`] — endpoints clamped
    /// to the view's length independently — and handed to
    /// [`AnySliceMut::window`], which states the result exactly. Any bounds
    /// are tolerated; an out-of-range window degrades to an empty view, never
    /// a fault.
    pub fn subslice<R>(&self, range: R) -> (r: AnySliceRef<'_>)
        where R: RangeBounds<usize>,
        ensures
            exists|s: int| self.shared_window_of(r, s),
    {
        let w = constrain_range(self.elems.len(), range);
        self.window(w.start, w.end)
    }

    /// The exclusive sub-view under an explicit `[start, end)` window of
    /// element positions, stated exactly.
    ///
    /// As [`AnySliceMut::window`], but the sub-view permits mutation and
    /// takes the view's exclusivity for its scope: the view itself,
    /// unchanged, becomes usable again when the sub-view's borrow ends.
    pub fn window_mut(&mut self, start: usize, end: usize) -> (r: AnySliceMut<'_>)
        ensures
            final(self).backing() == old(self).backing(),
            final(self).base_address() == old(self).base_address(),
            final(self).spec_stride() == old(self).spec_stride(),
            final(self).tag() == old(self).tag(),
            r.spec_stride() == old(self).spec_stride(),
            r.tag() == old(self).tag(),
            ({
                let len = old(self).backing().len() as int;
                let s = if start <= len { start as int } else { len };
                let e = if end <= len { end as int } else { len };
                let n = crate::range::window_len(s, e);
                &&& r.base_address() == old(self).base_address() + s * old(self).spec_stride()
                &&& r.backing().len() == n
            }),
            old(self).exclusive_window_of(r, if start <= old(self).backing().len() {
                start as int
            } else {
                old(self).backing().len() as int
            }),
    {
        let total = self.elems.len();
        let start = if start <= total {
            start
        } else {
            total
        };
        let end = if end <= total {
            end
        } else {
            total
        };
        let end = if end < start {
            start
        } else {
            end
        };
        let n = end - start;
        proof {
            use_type_invariant(&*self);
            lemma_mul_inequality(start as int, self.elems@.len() as int, self.stride as int);
            lemma_mul_inequality(
                start as int + n as int,
                self.elems@.len() as int,
                self.stride as int,
            );
            lemma_mul_is_distributive_add_other_way(self.stride as int, start as int, n as int);
        }
        let base = self.base + start * self.stride;
        let stride = self.stride;
        let tag = self.type_id;
        let elems = reborrow_range(&mut self.elems, start, end);
        let r = AnySliceMut { elems, base, stride, type_id: tag };
        proof {
            assert(old(self).exclusive_window_of(r, start as int));
        }
        r
    }

    /// The sub-view under a range of element positions, as an exclusive view.
    ///
    /// The range is made canonical by [`constrain_range`] — endpoints clamped
    /// to the view's length independently — and handed to
    /// [`AnySliceMut::window_mut`], which states the result exactly. Any
    /// bounds are tolerated; an out-of-range window degrades to an empty
    /// view, never a fault.
    pub fn subslice_mut<R>(&mut self, range: R) -> (r: AnySliceMut<'_>)
        where R: RangeBounds<usize>,
        ensures
            final(self).backing() == old(self).backing(),
            final(self).base_address() == old(self).base_address(),
            final(self).spec_stride() == old(self).spec_stride(),
            final(self).tag() == old(self).tag(),
            exists|s: int| old(self).exclusive_window_of(r, s),
    {
        let w = constrain_range(self.elems.len(), range);
        self.window_mut(w.start, w.end)
    }

    /// The exclusive sub-view under an explicit `[start, end)` window of
    /// element positions, consuming the view and stated exactly.
    ///
    /// As [`AnySliceMut::window_mut`], except that the view is given up: the
    /// sub-view keeps the whole scope of the borrow that was originally
    /// erased, and it holds exactly the window's own run of element borrows.
    pub fn window_into(self, start: usize, end: usize) -> (r: AnySliceMut<'a>)
        ensures
            r.spec_stride() == self.spec_stride(),
            r.tag() == self.tag(),
            ({
                let len = self.backing().len() as int;
                let s = if start <= len { start as int } else { len };
                let e = if end <= len { end as int } else { len };
                let n = crate::range::window_len(s, e);
                &&& r.base_address() == self.base_address() + s * self.spec_stride()
                &&& r.backing() == self.backing().subrange(s, s + n)
            }),
            self.exclusive_window_of(r, if start <= self.backing().len() {
                start as int
            } else {
                self.backing().len() as int
            }),
    {
        let total = self.elems.len();
        let start = if start <= total {
            start
        } else {
            total
        };
        let end = if end <= total {
            end
        } else {
            total
        };
        let end = if end < start {
            start
        } else {
            end
        };
        let n = end - start;
        proof {
            use_type_invariant(&self);
            lemma_mul_inequality(start as int, self.elems@.len() as int, self.stride as int);
            lemma_mul_inequality(
                start as int + n as int,
                self.elems@.len() as int,
                self.stride as int,
            );
            lemma_mul_is_distributive_add_other_way(self.stride as int, start as int, n as int);
        }
        let base = self.base + start * self.stride;
        let stride = self.stride;
        let tag = self.type_id;
        let mut elems = self.elems;
        let mut tail = elems.split_off(start);
        tail.truncate(n);
        proof {
            assert(tail@ =~= self.backing().subrange(start as int, start as int + n as int));
        }
        let r = AnySliceMut { elems: tail, base, stride, type_id: tag };
        proof {
            assert(self.exclusive_window_of(r, start as int));
        }
        r
    }

    /// The sub-view under a range of element positions, consuming the view.
    ///
    /// The range is made canonical by [`constrain_range`] — endpoints clamped
    /// to the view's length independently — and handed to
    /// [`AnySliceMut::window_into`], which states the result exactly. Any
    /// bounds are tolerated; an out-of-range window degrades to an empty
    /// view, never a fault.
    pub fn subslice_into<R>(self, range: R) -> (r: AnySliceMut<'a>)
        where R: RangeBounds<usize>,
        ensures
            exists|s: int|
                {
                    &&& self.exclusive_window_of(r, s)
                    &&& r.backing() == self.backing().subrange(s, s + r.backing().len() as int)
                },
    {
        let total = self.elems.len();
        let w = constrain_range(total, range);
        self.window_into(w.start, w.end)
    }

    /// The address of the first element.
    pub fn as_ptr(&self) -> (r: usize)
        ensures
            r == self.base_address(),
    {
        self.base
    }

    /// The address of the first element.
    pub fn as_mut_ptr(&mut self) -> (r: usize)
        ensures
            r == old(self).base_address(),
            *final(self) == *old(self),
    {
        self.base
    }

    /// How many elements the view holds.
    pub fn len(&self) -> (r: usize)
        ensures
            r == self.backing().len(),
    {
        self.elems.len()
    }

    /// Does the view hold no elements at all?
    pub fn is_empty(&self) -> (r: bool)
        ensures
            r == (self.backing().len() == 0),
    {
        self.elems.len() == 0
    }

    /// Was the original slice's element of type `T`? True exactly when the
    /// recorded tag equals the tag of `T`.
    pub fn contains<T: 'static>(&self) -> (r: bool) {
        type_id_eq(&self.type_id, &TypeId::of::<T>())
    }

    /// The byte stride between elements: the erased element type's full
    /// in-memory size, padding included.
    pub fn stride(&self) -> (r: usize)
        ensures
            r == self.spec_stride(),
    {
        self.stride
    }

    /// The tag of the erased element type.
    pub fn type_id(&self) -> (r: &TypeId)
        ensures
            *r == self.tag(),
    {
        &self.type_id
    }
}

/// Law: exclusive sub-views compose. An exclusive window of an exclusive
/// window of a view is itself a window of the view, at the sum of the two
/// offsets: same tag and stride, no longer than what remains, and a base the
/// combined number of strides in.
pub proof fn lemma_exclusive_window_compose<'a, 'b, 'c>(
    outer: AnySliceMut<'a>,
    middle: AnySliceMut<'b>,
    inner: AnySliceMut<'c>,
    s1: int,
    s2: int,
)
    requires
        outer.exclusive_window_of(middle, s1),
        middle.exclusive_window_of(inner, s2),
    ensures
        outer.exclusive_window_of(inner, s1 + s2),
{
    lemma_mul_is_distributive_add_other_way(outer.spec_stride() as int, s1, s2);
}

} // verus!
