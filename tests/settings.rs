use address_bot::{format_i64, AllowList, Config, ConfigError};

#[test]
fn allow_list_membership_is_exact() {
    let list = AllowList::parse("12345,+6,-9").unwrap();
    assert!(list.is_allowed(12345));
    assert!(list.is_allowed(6));
    assert!(list.is_allowed(-9));
    assert!(!list.is_allowed(1234));
    assert!(!list.is_allowed(123456));
    assert!(!list.is_allowed(9));
}

#[test]
fn allow_list_limits_of_i64() {
    let list = AllowList::parse("9223372036854775807,-9223372036854775808").unwrap();
    assert!(list.is_allowed(i64::MAX));
    assert!(list.is_allowed(i64::MIN));
    assert!(AllowList::parse("9223372036854775808").is_err());
    assert!(AllowList::parse("-9223372036854775809").is_err());
    assert!(AllowList::parse("99999999999999999999999").is_err());
}

#[test]
fn malformed_allow_lists_are_refused() {
    for bad in ["", "1,", ",1", "1,,2", "1, 2", " 1", "x", "-", "+", "1.5", "1;2", "٣"] {
        assert!(matches!(AllowList::parse(bad), Err(ConfigError::InvalidAllowedUser)), "{}", bad);
    }
}

#[test]
fn config_keeps_the_base_url() {
    let c = Config::new("1", "http://example.org".to_string()).unwrap();
    assert_eq!(c.api_base_url, "http://example.org");
    assert!(c.allowed.is_allowed(1));
    assert!(matches!(
        Config::new("one", "http://example.org".to_string()),
        Err(ConfigError::InvalidAllowedUser)
    ));
}

#[test]
fn decimal_text() {
    assert_eq!(format_i64(0), "0");
    assert_eq!(format_i64(7), "7");
    assert_eq!(format_i64(10), "10");
    assert_eq!(format_i64(-45), "-45");
    assert_eq!(format_i64(i64::MAX), "9223372036854775807");
    assert_eq!(format_i64(i64::MIN), "-9223372036854775808");
}
