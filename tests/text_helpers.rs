use token_auth::text::{
    join, contains, decimal_string, parse_i32, signed_decimal_string, starts_with, str_eq,
    trim_leading,
};

#[test]
fn starts_with_cases() {
    assert!(starts_with("/api/admin/users", "/api/admin"));
    assert!(starts_with("abc", ""));
    assert!(!starts_with("/api", "/api/admin"));
    assert!(!starts_with("/api/user", "/api/admin"));
}

#[test]
fn contains_cases() {
    assert!(contains("/v1/api/auth/refresh?x=1", "/api/auth/refresh"));
    assert!(contains("abc", ""));
    assert!(!contains("/api/auth/login", "/api/auth/refresh"));
    assert!(!contains("", "a"));
}

#[test]
fn trim_leading_strips_every_repetition() {
    assert_eq!(trim_leading("Bearer abc", "Bearer "), "abc");
    assert_eq!(trim_leading("Bearer Bearer abc", "Bearer "), "abc");
    assert_eq!(trim_leading("abc", "Bearer "), "abc");
    assert_eq!(trim_leading("Bearer ", "Bearer "), "");
    assert_eq!(trim_leading("xx", ""), "xx");
}

#[test]
fn equality_and_join() {
    assert!(str_eq("héllo", "héllo"));
    assert!(!str_eq("hello", "hell"));
    assert_eq!(join("refresh_token:", "t"), "refresh_token:t");
}

#[test]
fn decimal_rendering() {
    assert_eq!(decimal_string(0), "0");
    assert_eq!(decimal_string(1234567890), "1234567890");
    assert_eq!(decimal_string(u64::MAX), "18446744073709551615");
    assert_eq!(signed_decimal_string(-42), "-42");
    assert_eq!(signed_decimal_string(i64::MIN), "-9223372036854775808");
    assert_eq!(signed_decimal_string(60), "60");
}

#[test]
fn parse_i32_cases() {
    assert_eq!(parse_i32("42"), Some(42));
    assert_eq!(parse_i32("+7"), Some(7));
    assert_eq!(parse_i32("-2147483648"), Some(i32::MIN));
    assert_eq!(parse_i32("2147483647"), Some(i32::MAX));
    assert_eq!(parse_i32("2147483648"), None);
    assert_eq!(parse_i32("-2147483649"), None);
    assert_eq!(parse_i32("99999999999999999999"), None);
    assert_eq!(parse_i32(""), None);
    assert_eq!(parse_i32("-"), None);
    assert_eq!(parse_i32("12a"), None);
    assert_eq!(parse_i32(" 1"), None);
    assert_eq!(parse_i32("007"), Some(7));
}
