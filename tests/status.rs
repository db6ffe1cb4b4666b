use nnsdk::Result;

#[test]
fn pack_then_unpack_gives_fields_back() {
    let r = Result::new(3, 42);
    assert_eq!(r.get(), (3, 42));
    let r = Result::new(1023, 8191);
    assert_eq!(r.get(), (1023, 8191));
    let r = Result::new(0, 0);
    assert_eq!(r.get(), (0, 0));
}

#[test]
fn pack_layout_is_module_low_description_above() {
    assert_eq!(Result::new(3, 42).raw(), 3 + 42 * 1024);
    assert_eq!(Result::new(1, 1).raw(), 0x401);
}

#[test]
fn pack_drops_bits_beyond_each_field() {
    assert_eq!(Result::new(1024 + 5, 8192 + 7).get(), (5, 7));
}

#[test]
fn zero_is_success_and_nonzero_is_failure() {
    assert!(Result::from_raw(0).is_success());
    assert!(Result::new(0, 0).is_success());
    assert!(!Result::from_raw(1).is_success());
    assert!(!Result::from_raw(u32::MAX).is_success());
    assert!(!Result::new(3, 42).is_success());
}

#[test]
fn into_result_maps_success_and_failure() {
    assert_eq!(Result::from_raw(0).into_result(7u32).ok(), Some(7));
    let e = Result::new(2, 9).into_result(7u32).err().unwrap();
    assert_eq!(e.get(), (2, 9));
}
