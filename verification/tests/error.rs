use rhai_bridge::error::clear_last_error;
use rhai_bridge::error::report_panic;
use rhai_bridge::error::rhai_get_last_error;
use rhai_bridge::error::set_last_error;
use rhai_bridge::error::LastError;
use rhai_bridge::text::i64_to_text;
use rhai_bridge::text::u64_to_text;

#[test]
fn test_error_storage() {
    let mut slot = LastError::new();
    clear_last_error(&mut slot);

    assert!(rhai_get_last_error(&slot).is_none());

    set_last_error(&mut slot, "test error");

    let error = rhai_get_last_error(&slot);
    assert!(error.is_some());
    assert_eq!(error.unwrap(), "test error");

    clear_last_error(&mut slot);
    assert!(rhai_get_last_error(&slot).is_none());
}

#[test]
fn test_error_handling() {
    let mut slot = LastError::new();
    clear_last_error(&mut slot);
    assert!(rhai_get_last_error(&slot).is_none());

    set_last_error(&mut slot, "test error");
    assert!(rhai_get_last_error(&slot).is_some());
}

#[test]
fn test_error_is_replaced_and_read_twice() {
    let mut slot = LastError::new();
    set_last_error(&mut slot, "first");
    set_last_error(&mut slot, "second");
    assert_eq!(rhai_get_last_error(&slot), Some("second".to_string()));
    assert_eq!(rhai_get_last_error(&slot), Some("second".to_string()));
    set_last_error(&mut slot, "");
    assert_eq!(rhai_get_last_error(&slot), Some(String::new()));
}

#[test]
fn test_u64_to_text() {
    assert_eq!(u64_to_text(0), "0");
    assert_eq!(u64_to_text(7), "7");
    assert_eq!(u64_to_text(10), "10");
    assert_eq!(u64_to_text(1_000_000), "1000000");
    assert_eq!(u64_to_text(9_007_199_254_740_993), "9007199254740993");
    assert_eq!(u64_to_text(u64::MAX), "18446744073709551615");
}

#[test]
fn test_i64_to_text() {
    assert_eq!(i64_to_text(0), "0");
    assert_eq!(i64_to_text(-1), "-1");
    assert_eq!(i64_to_text(12345), "12345");
    assert_eq!(i64_to_text(-9070), "-9070");
    assert_eq!(i64_to_text(i64::MAX), "9223372036854775807");
    assert_eq!(i64_to_text(i64::MIN), "-9223372036854775808");
}

#[test]
fn test_concat() {
    assert_eq!(rhai_bridge::text::concat("", ""), "");
    assert_eq!(rhai_bridge::text::concat("ab", ""), "ab");
    assert_eq!(rhai_bridge::text::concat("", "cd"), "cd");
    assert_eq!(rhai_bridge::text::concat("ab", "cd"), "abcd");
}

#[test]
fn test_catch_panic_on_panic() {
    let mut slot = LastError::new();
    clear_last_error(&mut slot);

    let result = report_panic(&mut slot, Some("test panic"));
    assert_eq!(result, -1);

    let error = rhai_get_last_error(&slot);
    assert!(error.is_some());
    let error = error.unwrap();
    assert!(error.contains("test panic"));
    assert!(error.contains("Panic in FFI call"));
    assert_eq!(error, "Panic in FFI call: test panic");
}

#[test]
fn test_panic_without_a_message() {
    let mut slot = LastError::new();
    assert_eq!(report_panic(&mut slot, None), -1);
    assert_eq!(
        rhai_get_last_error(&slot),
        Some("Panic in FFI call: Unknown panic occurred".to_string())
    );
}
