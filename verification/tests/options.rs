use sp2::SenderOptions;

#[test]
fn validation() {
    assert!(SenderOptions::new("ok", 1, 1).validate().is_ok());
    assert!(SenderOptions::new("", 1, 1).validate().is_err());
    assert!(SenderOptions::new("x", 0, 1).validate().is_err());
    assert!(SenderOptions::new(&"a".repeat(256), 1, 1)
        .validate()
        .is_err());
}
