use core::any::TypeId;
use sashay::AnyMut;
use sashay::AnyRef;

#[test]
fn round_trip_shared() {
    // Restoring to the erased type yields the original referent; any other
    // type yields an absent result.
    let data: i32 = 7;
    let any = AnyRef::erase(&data);
    assert_eq!(any.unerase::<i32>(), Some(&7));
    assert_eq!(any.unerase::<i32>(), Some(&7)); // shared: restore repeats
    assert_eq!(any.unerase::<bool>(), None);
    assert_eq!(any.unerase::<u32>(), None);
    assert!(std::ptr::eq(any.unerase::<i32>().unwrap(), &data));
}

#[test]
fn round_trip_into_outlives_handle() {
    let data: i32 = 7;
    let unerased = {
        let any = AnyRef::erase(&data);
        any.unerase_into::<i32>().unwrap()
    };
    assert_eq!(unerased, &7);

    let mut value: i32 = 7;
    let restored = {
        let any = AnyMut::erase(&mut value);
        any.unerase_into::<i32>().unwrap()
    };
    *restored = 11;
    assert_eq!(value, 11);
}

#[test]
fn mutation_is_visible_through_restore() {
    // Erasure never copies the value: a write through the restored reference
    // lands in the original binding.
    let mut data: char = 'z';
    let mut any = AnyMut::erase(&mut data);
    assert_eq!(any.unerase::<char>(), Some(&'z'));
    assert_eq!(any.unerase_mut::<i32>(), None);
    let restored = any.unerase_mut::<char>().unwrap();
    *restored = 'a';
    // The handle stays usable once the restored borrow ends.
    assert_eq!(any.unerase::<char>(), Some(&'a'));
    assert_eq!(data, 'a');
}

#[test]
fn tag_discrimination() {
    // Distinct static types carry distinct tags.
    assert_ne!(TypeId::of::<i32>(), TypeId::of::<u32>());
    assert_ne!(TypeId::of::<i32>(), TypeId::of::<bool>());
    assert_ne!(TypeId::of::<(u8, u16)>(), TypeId::of::<(u16, u8)>());

    let data: i32 = 0;
    let any = AnyRef::erase(&data);
    assert!(any.contains::<i32>());
    assert!(!any.contains::<u32>());
    assert!(!any.contains::<bool>());
    assert_eq!(any.type_id(), &TypeId::of::<i32>());

    let mut value: bool = false;
    let any = AnyMut::erase(&mut value);
    assert!(any.contains::<bool>());
    assert!(!any.contains::<i32>());
    assert_eq!(any.type_id(), &TypeId::of::<bool>());
}

#[test]
fn erase_single_bool() {
    // Scenario: one erased boolean.
    let data: bool = true;
    let any = AnyRef::erase(&data);
    assert!(any.contains::<bool>());
    assert!(!any.contains::<i32>());
    assert_eq!(any.unerase::<i32>(), None);
    assert_eq!(any.unerase::<bool>(), Some(&true));
}

#[test]
fn scalar_downgrade() {
    // An exclusive handle downgrades to any number of shared ones; all agree
    // on the address, the tag and the read-only content.
    let mut data: i32 = 7;
    let any = AnyMut::erase(&mut data);
    let shared_a = any.borrow();
    let shared_b = any.borrow();
    assert_eq!(shared_a.unerase::<i32>(), Some(&7));
    assert_eq!(shared_b.unerase::<i32>(), Some(&7));
    assert_eq!(shared_a.as_ptr(), any.as_ptr());
    assert_eq!(shared_b.as_ptr(), any.as_ptr());
    assert_eq!(shared_a.type_id(), any.type_id());
}

#[test]
fn scalar_addresses() {
    let mut data: u64 = 3;
    let shared = AnyRef::erase(&data);
    assert_eq!(shared.as_ptr(), core::ptr::from_ref(&data).addr());
    let mut any = AnyMut::erase(&mut data);
    assert_eq!(any.as_ptr(), any.as_mut_ptr());
}
