//! Range normalization.
//!
//! A view is sub-ranged with any of Rust's range expressions. This module
//! turns such an expression plus a container length into one canonical
//! `[start, end)` window: unbounded endpoints resolve to the container's own
//! ends, inclusive or exclusive endpoints to half-open ones, and both
//! endpoints are clamped to the length independently of one another. Clamping
//! is deliberate policy: a window that starts past the end degrades to an
//! empty window, never to a fault.

use core::ops::Bound;
use core::ops::Range;
use core::ops::RangeBounds;
use vstd::prelude::*;

verus! {

#[verifier::external_type_specification]
#[verifier::reject_recursive_types(T)]
pub struct ExBound<T>(Bound<T>);

/// Where a start bound begins, before clamping: an exclusive start begins one
/// past its endpoint, an unbounded start at zero.
pub open spec fn resolved_start(start: Bound<usize>) -> int {
    match start {
        Bound::Included(s) => s as int,
        Bound::Excluded(s) => s as int + 1,
        Bound::Unbounded => 0,
    }
}

/// Where an end bound stops, before clamping: an inclusive end stops one past
/// its endpoint, an unbounded end at the container's length.
pub open spec fn resolved_end(len: int, end: Bound<usize>) -> int {
    match end {
        Bound::Included(e) => e as int + 1,
        Bound::Excluded(e) => e as int,
        Bound::Unbounded => len,
    }
}

/// The start of the canonical window: the resolved start, clamped to `len`.
pub open spec fn constrained_start(len: int, start: Bound<usize>) -> int {
    if resolved_start(start) <= len {
        resolved_start(start)
    } else {
        len
    }
}

/// The end of the canonical window: the resolved end, clamped to `len`.
pub open spec fn constrained_end(len: int, end: Bound<usize>) -> int {
    if resolved_end(len, end) <= len {
        resolved_end(len, end)
    } else {
        len
    }
}

/// How many elements a `[start, end)` window holds; an inverted window holds
/// none.
pub open spec fn window_len(start: int, end: int) -> int {
    if start <= end {
        end - start
    } else {
        0
    }
}

/// Turn a pair of endpoint bounds and a container length into the canonical
/// window that [`constrained_start`] and [`constrained_end`] describe. The
/// two endpoints are clamped independently, never to each other, so the
/// result may be inverted; an inverted window counts as empty.
pub fn normalize_bounds(len: usize, start: Bound<usize>, end: Bound<usize>) -> (r: Range<usize>)
    ensures
        r.start == constrained_start(len as int, start),
        r.end == constrained_end(len as int, end),
{
    let s: usize = match start {
        Bound::Included(b) => if b <= len {
            b
        } else {
            len
        },
        Bound::Excluded(b) => if b < len {
            b + 1
        } else {
            len
        },
        Bound::Unbounded => 0,
    };
    let e: usize = match end {
        Bound::Included(b) => if b < len {
            b + 1
        } else {
            len
        },
        Bound::Excluded(b) => if b <= len {
            b
        } else {
            len
        },
        Bound::Unbounded => len,
    };
    Range { start: s, end: e }
}

/// Relies on `RangeBounds::start_bound` and `Bound::cloned` to read a range
/// expression's start endpoint as a plain value.
#[verifier::external_body]
fn start_edge<R: RangeBounds<usize>>(range: &R) -> (b: Bound<usize>) {
    range.start_bound().cloned()
}

/// Relies on `RangeBounds::end_bound` and `Bound::cloned` to read a range
/// expression's end endpoint as a plain value.
#[verifier::external_body]
fn end_edge<R: RangeBounds<usize>>(range: &R) -> (b: Bound<usize>) {
    range.end_bound().cloned()
}

/// Convert an arbitrary range expression plus a container length into a
/// canonical window with both endpoints clamped to `[0, len]`.
///
/// The verifier has no specification for `RangeBounds`, so the two endpoints
/// are fetched by trusted accessors; [`normalize_bounds`], which states the
/// window exactly, then does all the work.
pub fn constrain_range<R>(len: usize, range: R) -> (r: Range<usize>)
    where R: RangeBounds<usize>,
    ensures
        r.start <= len,
        r.end <= len,
{
    let start = start_edge(&range);
    let end = end_edge(&range);
    normalize_bounds(len, start, end)
}

/// Law: normalization is idempotent. A window that is already canonical for
/// `len` — both endpoints within bounds, as any window this module produces —
/// normalizes to itself, so re-normalizing what `normalize_bounds` returned
/// changes nothing.
pub proof fn lemma_normalize_idempotent(len: usize, start: usize, end: usize)
    requires
        start <= len,
        end <= len,
    ensures
        constrained_start(len as int, Bound::Included(start)) == start,
        constrained_end(len as int, Bound::Excluded(end)) == end,
{
}

/// Law: clamping. Whatever the bounds, the canonical window's endpoints lie in
/// `[0, len]`; and a window whose resolved start lies at or past `len` holds
/// no elements, never faults.
pub proof fn lemma_normalize_clamps(len: usize, start: Bound<usize>, end: Bound<usize>)
    ensures
        0 <= constrained_start(len as int, start) <= len,
        0 <= constrained_end(len as int, end) <= len,
        resolved_start(start) >= len ==> window_len(
            constrained_start(len as int, start),
            constrained_end(len as int, end),
        ) == 0,
{
}

/// Law: sub-windows compose. Cutting the window `[s1, e1)` out of a sequence
/// and then the window `[s2, e2)` out of the cut equals cutting the single
/// absolute window `[s1 + s2, s1 + e2)` out of the original.
pub proof fn lemma_sub_window_compose<A>(s: Seq<A>, s1: int, e1: int, s2: int, e2: int)
    requires
        0 <= s1 <= e1 <= s.len(),
        0 <= s2 <= e2 <= e1 - s1,
    ensures
        s.subrange(s1, e1).subrange(s2, e2) == s.subrange(s1 + s2, s1 + e2),
{
    assert(s.subrange(s1, e1).subrange(s2, e2) =~= s.subrange(s1 + s2, s1 + e2));
}

} // verus!
