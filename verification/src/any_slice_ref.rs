//! The type-erased shared view of contiguous values.

use crate::any_ref::AnyRef;
use crate::backing::downcast_shared;
use crate::backing::erase_parts;
use crate::backing::slice_base_addr;
use crate::backing::ErasedRef;
use crate::range::constrain_range;
use crate::tag::type_id_eq;
use core::any::TypeId;
use core::ops::RangeBounds;
use vstd::arithmetic::mul::lemma_mul_inequality;
use vstd::arithmetic::mul::lemma_mul_is_distributive_add_other_way;
use vstd::prelude::*;

verus! {

/// A type-erased shared view of contiguous values.
///
/// A shared borrow of a run of values, like `&'a [T]`, except that the element
/// type `T` has been erased. The handle records one erased borrow per element
/// (opaque to the verifier), the address of the first element, the byte
/// stride from one element to the next — the erased type's full in-memory
/// size — and the tag of the erased element type. The view can be measured,
/// indexed and sub-ranged without knowing `T`; only restoring an element or
/// the whole view needs the type back.
pub struct AnySliceRef<'a> {
    elems: Vec<ErasedRef<'a>>,
    base: usize,
    stride: usize,
    type_id: TypeId,
}

impl<'a> Clone for AnySliceRef<'a> {
    /// The clone is the same view: same element borrows, base, stride and
    /// tag. Shared views may be duplicated freely.
    fn clone(&self) -> (r: Self)
        ensures
            r.backing() == self.backing(),
            r.base_address() == self.base_address(),
            r.spec_stride() == self.spec_stride(),
            r.tag() == self.tag(),
    {
        proof {
            use_type_invariant(&*self);
        }
        let elems = self.elems.clone();
        proof {
            assert forall|i: int| 0 <= i < elems@.len() implies elems@[i] == self.elems@[i] by {
                assert(cloned::<ErasedRef<'a>>(self.elems@[i], elems@[i]));
            }
            assert(elems@ =~= self.elems@);
        }
        AnySliceRef { elems, base: self.base, stride: self.stride, type_id: self.type_id }
    }
}

impl<'a> AnySliceRef<'a> {
    /// The hidden element borrows the view was made from, in element order.
    pub closed spec fn backing(self) -> Seq<ErasedRef<'a>> {
        self.elems@
    }

    /// The address of the first element.
    pub closed spec fn base_address(self) -> usize {
        self.base
    }

    /// The byte stride between elements.
    pub closed spec fn spec_stride(self) -> usize {
        self.stride
    }

    /// The tag of the erased element type.
    pub closed spec fn tag(self) -> TypeId {
        self.type_id
    }

    /// Every element's address stays within the address space: the window
    /// `[base, base + len * stride]` does not wrap.
    #[verifier::type_invariant]
    spec fn in_address_space(self) -> bool {
        self.base + self.elems@.len() * self.stride <= usize::MAX
    }

    /// The view `self` is the window of `parent` that starts at element `s`:
    /// same tag, same stride, the element borrows are the corresponding run of
    /// `parent`'s, and the base address sits `s` strides into `parent`.
    pub open spec fn is_sub_view_of(self, parent: Self, s: int) -> bool {
        &&& 0 <= s
        &&& s + self.backing().len() <= parent.backing().len()
        &&& self.backing() == parent.backing().subrange(s, s + self.backing().len() as int)
        &&& self.base_address() == parent.base_address() + s * parent.spec_stride()
        &&& self.spec_stride() == parent.spec_stride()
        &&& self.tag() == parent.tag()
    }

    /// Build a view from already-erased element borrows, the first element's
    /// address, the stride and the tag. The exclusive view uses this when it
    /// is downgraded or sub-ranged into a shared one.
    pub(crate) fn from_parts(
        elems: Vec<ErasedRef<'a>>,
        base: usize,
        stride: usize,
        type_id: TypeId,
    ) -> (r: Self)
        requires
            base + elems@.len() * stride <= usize::MAX,
        ensures
            r.backing() == elems@,
            r.base_address() == base,
            r.spec_stride() == stride,
            r.tag() == type_id,
    {
        AnySliceRef { elems, base, stride, type_id }
    }

    /// Erase the element type of a shared slice.
    ///
    /// Total: the slice is valid by construction, so nothing is checked. The
    /// view keeps the slice's length, and its stride is the element type's
    /// full in-memory size, padding included.
    pub fn erase<T: 'static>(slice: &'a [T]) -> (r: AnySliceRef<'a>)
        ensures
            r.backing().len() == slice@.len(),
            r.spec_stride() == vstd::layout::size_of::<T>(),
    {
        let base = slice_base_addr(slice);
        let stride = core::mem::size_of::<T>();
        let n = slice.len();
        let mut elems: Vec<ErasedRef<'a>> = Vec::new();
        let mut i: usize = 0;
        while i < n
            invariant
                i <= n,
                n == slice@.len(),
                elems@.len() == i,
                base + n * (vstd::layout::size_of::<T>() as int) <= usize::MAX,
                stride == vstd::layout::size_of::<T>(),
            decreases n - i,
        {
            let (erased, _addr) = erase_parts::<T>(&slice[i]);
            elems.push(erased);
            i = i + 1;
        }
        AnySliceRef { elems, base, stride, type_id: TypeId::of::<T>() }
    }

    /// Restore to shared references of element type `T`, one per element and
    /// in element order.
    ///
    /// Returns the borrows exactly when `T` is the erased element type; on
    /// any other `T` it returns `None`. A mismatch is an expected outcome,
    /// not a fault. The tags bind the erased type at run time; the verifier
    /// cannot relate them to the type parameter, so that guarantee is
    /// exercised by the test suite rather than stated here.
    pub fn unerase<T: 'static>(&self) -> (r: Option<Vec<&T>>)
        ensures
            r matches Some(v) ==> v@.len() == self.backing().len(),
    {
        if !self.contains::<T>() {
            return None;
        }
        let n = self.elems.len();
        let mut out: Vec<&T> = Vec::new();
        let mut i: usize = 0;
        while i < n
            invariant
                i <= n,
                n == self.elems@.len(),
                out@.len() == i,
            decreases n - i,
        {
            match downcast_shared::<T>(self.elems[i]) {
                Some(reference) => out.push(reference),
                None => {
                    return None;
                },
            }
            i = i + 1;
        }
        Some(out)
    }

    /// Restore to shared references of element type `T`, consuming the view.
    ///
    /// Behaves as [`AnySliceRef::unerase`], except that the view is given up
    /// and the returned borrows keep the whole scope of the borrow that was
    /// originally erased, rather than being bounded by the view's own.
    pub fn unerase_into<T: 'static>(self) -> (r: Option<Vec<&'a T>>)
        ensures
            r matches Some(v) ==> v@.len() == self.backing().len(),
    {
        if !self.contains::<T>() {
            return None;
        }
        let n = self.elems.len();
        let mut out: Vec<&'a T> = Vec::new();
        let mut i: usize = 0;
        while i < n
            invariant
                i <= n,
                n == self.elems@.len(),
                out@.len() == i,
            decreases n - i,
        {
            match downcast_shared::<T>(self.elems[i]) {
                Some(reference) => out.push(reference),
                None => {
                    return None;
                },
            }
            i = i + 1;
        }
        Some(out)
    }

    /// A single element as an erased shared reference.
    ///
    /// Present exactly for `index < len`; an absent element is reported, not
    /// tolerated, unlike a sub-view's bounds. The element keeps the view's
    /// tag and sits `index` strides past the base.
    pub fn get(&self, index: usize) -> (r: Option<AnyRef<'a>>)
        ensures
            match r {
                Some(element) => {
                    &&& index < self.backing().len()
                    &&& element.backing() == self.backing()[index as int]
                    &&& element.address() == self.base_address() + index * self.spec_stride()
                    &&& element.tag() == self.tag()
                },
                None => index >= self.backing().len(),
            },
    {
        if index < self.elems.len() {
            proof {
                use_type_invariant(&*self);
                lemma_mul_inequality(index as int, self.elems@.len() as int, self.stride as int);
            }
            let addr = self.base + index * self.stride;
            Some(AnyRef::from_parts(self.elems[index], addr, self.type_id))
        } else {
            None
        }
    }

    /// The sub-view under an explicit `[start, end)` window of element
    /// positions, stated exactly.
    ///
    /// Both endpoints are clamped to the view's length independently, and an
    /// inverted window counts as empty, as in [`constrain_range`]'s policy:
    /// any window is tolerated and degrades to an empty view, never a fault.
    /// The result holds exactly the window's run of element borrows, with the
    /// same tag and stride and a base moved `start` whole strides in.
    pub fn window(&self, start: usize, end: usize) -> (r: AnySliceRef<'a>)
        ensures
            r.spec_stride() == self.spec_stride(),
            r.tag() == self.tag(),
            ({
                let len = self.backing().len() as int;
                let s = if start <= len { start as int } else { len };
                let e = if end <= len { end as int } else { len };
                let n = crate::range::window_len(s, e);
                &&& r.base_address() == self.base_address() + s * self.spec_stride()
                &&& r.backing() == self.backing().subrange(s, s + n)
            }),
            r.is_sub_view_of(*self, if start <= self.backing().len() {
                start as int
            } else {
                self.backing().len() as int
            }),
    {
        let total = self.elems.len();
        let start = if start <= total {
            start
        } else {
            total
        };
        let end = if end <= total {
            end
        } else {
            total
        };
        let end = if end < start {
            start
        } else {
            end
        };
        let n = end - start;
        let mut elems: Vec<ErasedRef<'a>> = Vec::new();
        let mut i: usize = 0;
        while i < n
            invariant
                i <= n,
                total == self.elems@.len(),
                start + n <= total,
                elems@ == self.elems@.subrange(start as int, start as int + i as int),
            decreases n - i,
        {
            let element: ErasedRef<'a> = self.elems[start + i];
            elems.push(element);
            i = i + 1;
            proof {
                assert(elems@ =~= self.elems@.subrange(start as int, start as int + i as int));
            }
        }
        proof {
            use_type_invariant(&*self);
            lemma_mul_inequality(start as int, self.elems@.len() as int, self.stride as int);
            lemma_mul_inequality(
                start as int + n as int,
                self.elems@.len() as int,
                self.stride as int,
            );
            lemma_mul_is_distributive_add_other_way(self.stride as int, start as int, n as int);
        }
        let base = self.base + start * self.stride;
        let r = AnySliceRef { elems, base, stride: self.stride, type_id: self.type_id };
        proof {
            assert(r.is_sub_view_of(*self, start as int));
        }
        r
    }

    /// The sub-view under a range of element positions.
    ///
    /// The range is made canonical by [`constrain_range`] — endpoints clamped
    /// to the view's length independently — and handed to
    /// [`AnySliceRef::window`], which states the result exactly. Any bounds
    /// are tolerated; an out-of-range window degrades to an empty view, never
    /// a fault.
    pub fn subslice<R>(&self, range: R) -> (r: AnySliceRef<'a>)
        where R: RangeBounds<usize>,
        ensures
            exists|s: int| r.is_sub_view_of(*self, s),
    {
        let w = constrain_range(self.elems.len(), range);
        self.window(w.start, w.end)
    }

    /// The sub-view under a range of element positions, consuming the view.
    ///
    /// Behaves as [`AnySliceRef::subslice`]; the view is given up, which the
    /// borrowing form makes unnecessary for shared views, but mirrors the
    /// exclusive handles' consuming form.
    pub fn subslice_into<R>(self, range: R) -> (r: AnySliceRef<'a>)
        where R: RangeBounds<usize>,
        ensures
            exists|s: int| r.is_sub_view_of(self, s),
    {
        self.subslice(range)
    }

    /// The address of the first element.
    pub fn as_ptr(&self) -> (r: usize)
        ensures
            r == self.base_address(),
    {
        self.base
    }

    /// How many elements the view holds.
    pub fn len(&self) -> (r: usize)
        ensures
            r == self.backing().len(),
    {
        self.elems.len()
    }

    /// Does the view hold no elements at all?
    pub fn is_empty(&self) -> (r: bool)
        ensures
            r == (self.backing().len() == 0),
    {
        self.elems.len() == 0
    }

    /// Was the original slice's element of type `T`? True exactly when the
    /// recorded tag equals the tag of `T`.
    pub fn contains<T: 'static>(&self) -> (r: bool) {
        type_id_eq(&self.type_id, &TypeId::of::<T>())
    }

    /// The byte stride between elements: the erased element type's full
    /// in-memory size, padding included.
    pub fn stride(&self) -> (r: usize)
        ensures
            r == self.spec_stride(),
    {
        self.stride
    }

    /// The tag of the erased element type.
    pub fn type_id(&self) -> (r: &TypeId)
        ensures
            *r == self.tag(),
    {
        &self.type_id
    }
}

/// Law: indexing a sub-view agrees with indexing the view. The `i`-th element
/// of a window at offset `s` is the parent view's `s + i`-th element borrow,
/// and it sits at the parent's `s + i`-th element address.
pub proof fn lemma_sub_view_element<'a>(
    sub: AnySliceRef<'a>,
    parent: AnySliceRef<'a>,
    s: int,
    i: int,
)
    requires
        sub.is_sub_view_of(parent, s),
        0 <= i < sub.backing().len(),
    ensures
        sub.backing()[i] == parent.backing()[s + i],
        sub.base_address() + i * sub.spec_stride() == parent.base_address() + (s + i)
            * parent.spec_stride(),
{
    lemma_mul_is_distributive_add_other_way(parent.spec_stride() as int, s, i);
}

/// Law: sub-views compose. A window of a window of a view is itself a window
/// of the view, at the sum of the two offsets: same tag and stride, the same
/// run of element borrows, and a base the combined number of strides in. Two
/// nested `subslice` calls therefore agree with the single absolute one.
pub proof fn lemma_sub_view_compose<'a>(
    outer: AnySliceRef<'a>,
    middle: AnySliceRef<'a>,
    inner: AnySliceRef<'a>,
    s1: int,
    s2: int,
)
    requires
        middle.is_sub_view_of(outer, s1),
        inner.is_sub_view_of(middle, s2),
    ensures
        inner.is_sub_view_of(outer, s1 + s2),
{
    let n = inner.backing().len() as int;
    crate::range::lemma_sub_window_compose(
        outer.backing(),
        s1,
        s1 + middle.backing().len() as int,
        s2,
        s2 + n,
    );
    lemma_mul_is_distributive_add_other_way(outer.spec_stride() as int, s1, s2);
}

/// Law: sub-view chains compose at any depth. Where each view in a chain is a
/// window of the one before it, the last view is itself a window of the first
/// — so the stride and the tag recorded at erasure are immutable along every
/// chain of sub-views, however long.
pub proof fn lemma_sub_view_chain<'a>(chain: Seq<AnySliceRef<'a>>, offsets: Seq<int>)
    requires
        chain.len() >= 1,
        offsets.len() == chain.len() - 1,
        forall|i: int|
            0 <= i < offsets.len() ==> #[trigger] chain[i + 1].is_sub_view_of(
                chain[i],
                offsets[i],
            ),
    ensures
        exists|s: int| chain.last().is_sub_view_of(chain.first(), s),
        chain.last().spec_stride() == chain.first().spec_stride(),
        chain.last().tag() == chain.first().tag(),
    decreases chain.len(),
{
    if chain.len() == 1 {
        let only = chain.first();
        assert(only.backing() =~= only.backing().subrange(0, only.backing().len() as int));
        assert(only.is_sub_view_of(only, 0));
        assert(chain.last() == only && chain.first() == only);
        assert(chain.last().is_sub_view_of(chain.first(), 0));
    } else {
        let body = chain.drop_last();
        let body_offsets = offsets.drop_last();
        assert(forall|i: int|
            0 <= i < body_offsets.len() ==> #[trigger] body[i + 1].is_sub_view_of(
                body[i],
                body_offsets[i],
            ));
        lemma_sub_view_chain(body, body_offsets);
        let s1 = choose|s: int| body.last().is_sub_view_of(body.first(), s);
        let k = offsets.len() - 1;
        assert(chain[k + 1].is_sub_view_of(chain[k], offsets[k]));
        assert(chain.last() == chain[k + 1]);
        assert(body.last() == chain[k]);
        assert(body.first() == chain.first());
        lemma_sub_view_compose(chain.first(), chain[k], chain.last(), s1, offsets[k]);
    }
}

} // verus!
