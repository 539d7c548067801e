use ossm::storage::{
    stored_text, text_len, wifi_plan, WifiError, WifiPlan, KEY_MOTOR_CONFIG, KEY_PASSWORD,
    KEY_PIN_CONFIGURATION, KEY_SSID, NAMESPACE, PASSWORD_CAPACITY, SSID_CAPACITY, TEXT_CAPACITY,
};

#[test]
fn the_store_has_four_keys() {
    assert_eq!(NAMESPACE, "ossm");
    assert_eq!(KEY_SSID, "ssid");
    assert_eq!(KEY_PASSWORD, "password");
    assert_eq!(KEY_PIN_CONFIGURATION, "pin_configuration");
    assert_eq!(KEY_MOTOR_CONFIG, "motor_config");
    assert_eq!((SSID_CAPACITY, PASSWORD_CAPACITY, TEXT_CAPACITY), (32, 64, 1024));
}

#[test]
fn a_text_ends_at_the_first_zero_byte() {
    assert_eq!(text_len(b"home\0\0\0\0"), 4);
    assert_eq!(text_len(b"home\0net\0"), 4);
    assert_eq!(text_len(b"\0home"), 0);
    assert_eq!(text_len(b""), 0);
    assert_eq!(stored_text(b"home\0\0\0\0"), Some("home".to_string()));
    assert_eq!(stored_text(b"\0"), Some(String::new()));
}

#[test]
fn a_text_without_a_zero_byte_fills_the_buffer() {
    let buf = [b'a'; 32];
    assert_eq!(text_len(&buf), 32);
    assert_eq!(stored_text(&buf), Some("a".repeat(32)));
}

#[test]
fn a_stored_text_is_utf8() {
    assert_eq!(stored_text("caf\u{e9}\0".as_bytes()), Some("caf\u{e9}".to_string()));
    assert_eq!(stored_text(&[0xc3, 0x28, 0]), None);
    assert_eq!(stored_text(&[b'a', 0xff]), None);
    assert_eq!(stored_text(&[b'a', 0, 0xff]), Some("a".to_string()));
}

#[test]
fn credentials_that_are_not_stored_are_no_error() {
    assert_eq!(wifi_plan(None, None), Ok(WifiPlan::NotConfigured));
    assert_eq!(wifi_plan(Some("home"), None), Ok(WifiPlan::NotConfigured));
    assert_eq!(wifi_plan(None, Some("secret")), Ok(WifiPlan::NotConfigured));
}

#[test]
fn an_empty_name_is_not_connected_to() {
    assert_eq!(wifi_plan(Some(""), Some("secret")), Ok(WifiPlan::EmptySsid));
    assert_eq!(wifi_plan(Some(""), Some(&"x".repeat(100))), Ok(WifiPlan::EmptySsid));
}

#[test]
fn credentials_must_fit() {
    let name = "n".repeat(32);
    let word = "w".repeat(64);
    assert_eq!(wifi_plan(Some(&name), Some(&word)), Ok(WifiPlan::Connect));
    assert_eq!(wifi_plan(Some("home"), Some("")), Ok(WifiPlan::Connect));
    assert_eq!(wifi_plan(Some(&"n".repeat(33)), Some(&word)), Err(WifiError::SsidTooLong));
    assert_eq!(wifi_plan(Some(&name), Some(&"w".repeat(65))), Err(WifiError::PasswordTooLong));
    assert_eq!(
        wifi_plan(Some(&"n".repeat(33)), Some(&"w".repeat(65))),
        Err(WifiError::SsidTooLong)
    );
}

#[test]
fn lengths_are_counted_in_bytes() {
    let name = "\u{e9}".repeat(16);
    assert_eq!(wifi_plan(Some(&name), Some("secret")), Ok(WifiPlan::Connect));
    let name = "\u{e9}".repeat(17);
    assert_eq!(wifi_plan(Some(&name), Some("secret")), Err(WifiError::SsidTooLong));
}
