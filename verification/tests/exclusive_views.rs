use core::any::TypeId;
use sashay::AnySliceMut;

// The tuple (u8, u16) has padding, so its stride exceeds the sum of its
// fields' sizes.

#[test]
fn any_slice_mut_erase_unerase() {
    let mut data = [(1u8, 2u16), (3u8, 4u16)];
    let mut any = AnySliceMut::erase(data.as_mut_slice());

    assert_eq!(any.len(), 2);
    assert!(!any.is_empty());
    assert_eq!(any.type_id(), &TypeId::of::<(u8, u16)>());

    assert!(any.unerase::<u8>().is_none());
    let restored = any.unerase::<(u8, u16)>().unwrap();
    assert_eq!(restored, vec![&(1u8, 2u16), &(3u8, 4u16)]);

    assert!(any.unerase_mut::<u8>().is_none());
    let mut restored = any.unerase_mut::<(u8, u16)>().unwrap();
    for element in restored.iter_mut() {
        **element = (10u8, 10u16);
    }
    assert_eq!(data, [(10u8, 10u16), (10u8, 10u16)]);
}

#[test]
fn any_slice_mut_sub() {
    let mut data = [
        (0u8, 1u16),
        (2u8, 3u16),
        (4u8, 5u16),
        (6u8, 7u16),
        (8u8, 9u16),
    ];

    let mut any = AnySliceMut::erase(data.as_mut_slice());

    let mut tail = any.subslice_mut(3..).unerase_into::<(u8, u16)>().unwrap();
    for element in tail.iter_mut() {
        **element = (10u8, 10u16);
    }

    assert_eq!(
        data,
        [
            (0u8, 1u16),
            (2u8, 3u16),
            (4u8, 5u16),
            (10u8, 10u16),
            (10u8, 10u16),
        ]
    );
}

#[test]
fn exclusive_view_elements() {
    let mut data: [i32; 3] = [0, 1, 2];
    let mut any = AnySliceMut::erase(data.as_mut_slice());
    assert_eq!(any.stride(), 4);

    assert_eq!(any.get(1).unwrap().unerase::<i32>(), Some(&1));
    assert!(any.get(3).is_none());

    let base = any.as_ptr();
    let stride = any.stride();
    let mut element = any.get_mut(1).unwrap();
    assert_eq!(element.as_ptr(), base + stride);
    *element.unerase_mut::<i32>().unwrap() = 4;
    assert!(any.get_mut(3).is_none());
    assert_eq!(data, [0, 4, 2]);
}

#[test]
fn exclusive_view_downgrade() {
    // Downgrading twice yields two shared views that agree on everything and
    // restore to the same read-only content; neither offers mutation.
    let mut data: [i32; 3] = [7, 6, 5];
    let any = AnySliceMut::erase(data.as_mut_slice());

    let shared_a = any.borrow();
    let shared_b = any.borrow();
    assert_eq!(shared_a.len(), 3);
    assert_eq!(shared_b.len(), 3);
    assert_eq!(shared_a.as_ptr(), shared_b.as_ptr());
    assert_eq!(shared_a.stride(), shared_b.stride());
    assert_eq!(shared_a.type_id(), shared_b.type_id());
    assert_eq!(shared_a.unerase::<i32>().unwrap(), vec![&7, &6, &5]);
    assert_eq!(shared_b.unerase::<i32>().unwrap(), vec![&7, &6, &5]);
}

#[test]
fn exclusive_view_reborrow_and_windows() {
    let mut data: [i32; 5] = [0, 1, 2, 3, 4];
    let mut any = AnySliceMut::erase(data.as_mut_slice());

    {
        let mut again = any.borrow_mut();
        assert_eq!(again.len(), 5);
        assert_eq!(again.as_ptr(), again.as_mut_ptr());
        *again.get_mut(0).unwrap().unerase_mut::<i32>().unwrap() = 9;
    }
    assert_eq!(any.get(0).unwrap().unerase::<i32>(), Some(&9));

    // A shared window of the exclusive view.
    let window = any.subslice(1..4);
    assert_eq!(window.len(), 3);
    assert_eq!(window.unerase::<i32>().unwrap(), vec![&1, &2, &3]);

    // An exclusive window, then a write through it.
    {
        let mut window = any.subslice_mut(1..4);
        assert_eq!(window.len(), 3);
        *window.get_mut(0).unwrap().unerase_mut::<i32>().unwrap() = 8;
    }

    // Out-of-range windows degrade to empty.
    assert_eq!(any.subslice(10..20).len(), 0);
    assert!(any.subslice_mut(10..20).is_empty());

    assert_eq!(data, [9, 8, 2, 3, 4]);
}

#[test]
fn explicit_windows_mut() {
    let mut data: [i32; 5] = [0, 1, 2, 3, 4];
    let mut any = AnySliceMut::erase(data.as_mut_slice());

    {
        let shared = any.window(1, 3);
        assert_eq!(shared.len(), 2);
        assert_eq!(shared.unerase::<i32>().unwrap(), vec![&1, &2]);
    }
    {
        let mut exclusive = any.window_mut(2, 100);
        assert_eq!(exclusive.len(), 3);
        *exclusive.get_mut(0).unwrap().unerase_mut::<i32>().unwrap() = 7;
    }
    assert_eq!(any.window_mut(3, 1).len(), 0);
    assert_eq!(data, [0, 1, 7, 3, 4]);
}

#[test]
fn explicit_window_into() {
    let mut data: [i32; 5] = [0, 1, 2, 3, 4];

    // The consuming window keeps exactly the window's element borrows, at
    // the clamped offsets, with the original borrow's scope.
    let window = {
        let any = AnySliceMut::erase(data.as_mut_slice());
        any.window_into(1, 100)
    };
    assert_eq!(window.len(), 4);
    let mut restored = window.unerase_into::<i32>().unwrap();
    assert_eq!(restored.iter().map(|r| **r).collect::<Vec<i32>>(), vec![1, 2, 3, 4]);
    **restored.last_mut().unwrap() = 9;
    assert_eq!(data, [0, 1, 2, 3, 9]);

    // An inverted window is empty but keeps its start offset.
    let mut any = AnySliceMut::erase(data.as_mut_slice());
    let base = any.as_ptr();
    let stride = any.stride();
    let inverted = any.borrow_mut().window_into(3, 1);
    assert_eq!(inverted.len(), 0);
    assert_eq!(inverted.as_ptr(), base + 3 * stride);
}

#[test]
fn exclusive_view_into_keeps_original_scope() {
    let mut data: [u8; 4] = [1, 2, 3, 4];
    let restored = {
        let any = AnySliceMut::erase(data.as_mut_slice());
        any.unerase_into::<u8>().unwrap()
    };
    for element in restored {
        *element += 1;
    }
    assert_eq!(data, [2, 3, 4, 5]);

    let window = {
        let any = AnySliceMut::erase(data.as_mut_slice());
        any.subslice_into(1..3)
    };
    assert_eq!(window.len(), 2);
    let mut restored = window.unerase_into::<u8>().unwrap();
    for element in restored.iter_mut() {
        **element = 0;
    }
    assert_eq!(data, [2, 0, 0, 5]);
}

#[test]
fn exclusive_view_mismatch_is_absent_everywhere() {
    let mut data = [1u16, 2u16];
    let mut any = AnySliceMut::erase(data.as_mut_slice());
    assert!(any.unerase::<u8>().is_none());
    assert!(any.unerase_mut::<u8>().is_none());
    assert!(any.get(0).unwrap().unerase::<u8>().is_none());
    assert!(any.get_mut(0).unwrap().unerase_mut::<u8>().is_none());
    assert!(any.borrow().unerase::<u32>().is_none());
    assert!(any.unerase_into::<i16>().is_none());
}
