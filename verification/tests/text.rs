use protosuit_engine::text::{decimal, join, text_eq};

#[test]
fn decimal_writes_plain_numerals() {
    assert_eq!(decimal(0), "0");
    assert_eq!(decimal(7), "7");
    assert_eq!(decimal(10), "10");
    assert_eq!(decimal(3600), "3600");
    assert_eq!(decimal(u64::MAX), "18446744073709551615");
}

#[test]
fn join_keeps_order() {
    assert_eq!(join("app/status/", "cam"), "app/status/cam");
    assert_eq!(join("", ""), "");
}

#[test]
fn text_eq_compares_characters() {
    assert!(text_eq("debug", "debug"));
    assert!(!text_eq("debug", "Debug"));
    assert!(!text_eq("debug", "debu"));
}
