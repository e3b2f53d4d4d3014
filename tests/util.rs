use sf_client::util::is_unit;

#[test]
fn test_types() {
    assert!(is_unit::<()>());
    assert!(!is_unit::<String>());
}
