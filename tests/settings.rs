use overlay::settings::{bool_false, bool_true, default_u32};

#[test]
fn bool_defaults() {
    assert!(bool_true());
    assert!(!bool_false());
}

#[test]
fn u32_default_is_parameter() {
    assert_eq!(default_u32::<16364>(), 16364);
    assert_eq!(default_u32::<0>(), 0);
}
