use core::ops::Bound;
use sashay::constrain_range;
use sashay::normalize_bounds;

#[test]
fn range_types() {
    assert_eq!(constrain_range(5, 0..2), 0..2); // Range
    assert_eq!(constrain_range(5, 3..7), 3..5);
    assert_eq!(constrain_range(5, ..3), 0..3);
    assert_eq!(constrain_range(5, 7..), 5..5); // RangeFrom
    assert_eq!(constrain_range(5, ..), 0..5); // RangeFull
    assert_eq!(constrain_range(5, 1..=2), 1..3); // RangeInclusive
    assert_eq!(constrain_range(5, ..4), 0..4); // RangeTo
    assert_eq!(constrain_range(5, ..=2), 0..3); // RangeToInclusive
}

#[test]
fn normalize_each_bound_kind() {
    assert_eq!(normalize_bounds(5, Bound::Included(1), Bound::Excluded(3)), 1..3);
    assert_eq!(normalize_bounds(5, Bound::Excluded(1), Bound::Included(3)), 2..4);
    assert_eq!(normalize_bounds(5, Bound::Unbounded, Bound::Unbounded), 0..5);
    assert_eq!(normalize_bounds(5, Bound::Included(7), Bound::Unbounded), 5..5);
    assert_eq!(normalize_bounds(5, Bound::Unbounded, Bound::Included(9)), 0..5);
    assert_eq!(normalize_bounds(0, Bound::Unbounded, Bound::Unbounded), 0..0);
}

#[test]
fn normalize_idempotent() {
    // A window the normalizer produced normalizes to itself.
    let first = constrain_range(5, 1..=3);
    assert_eq!(first, 1..4);
    assert_eq!(constrain_range(5, first.clone()), first);
    let clamped = constrain_range(5, 2..9);
    assert_eq!(constrain_range(5, clamped.clone()), clamped);
}

#[test]
fn normalize_clamps_independently() {
    // Endpoints are clamped to the length, never to each other: an inverted
    // window may come out, and it counts as empty.
    let inverted = constrain_range(5, 4..2);
    assert_eq!(inverted, 4..2);
    assert_eq!(inverted.len(), 0);
    // The largest representable inclusive endpoint does not fault.
    assert_eq!(constrain_range(5, 0..=usize::MAX), 0..5);
    assert_eq!(constrain_range(5, (Bound::Excluded(usize::MAX), Bound::Unbounded)), 5..5);
}
