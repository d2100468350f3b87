use multi_publisher::text::{
    chars_of, contains_str, i64_text, parse_number, same_text, starts_with_str, string_of,
    trim_from, u64_text,
};

#[test]
fn substring_and_prefix() {
    assert!(contains_str("hello world", "lo w"));
    assert!(contains_str("abc", ""));
    assert!(!contains_str("ab", "abc"));
    assert!(starts_with_str("https://x", "https://"));
    assert!(!starts_with_str("http", "https"));
    assert!(same_text("上传", "上传"));
    assert!(!same_text("a", "ab"));
}

#[test]
fn decimal_text() {
    assert_eq!(u64_text(0), "0");
    assert_eq!(u64_text(1234567890), "1234567890");
    assert_eq!(i64_text(-42), "-42");
    assert_eq!(i64_text(i32::MIN as i64), "-2147483648");
    assert_eq!(i64_text(i64::MIN), "-9223372036854775808");
}

#[test]
fn number_parsing() {
    assert_eq!(parse_number(&chars_of("65535"), 65535), Some(65535));
    assert_eq!(parse_number(&chars_of("65536"), 65535), None);
    assert_eq!(parse_number(&chars_of("+12"), 65535), Some(12));
    assert_eq!(parse_number(&chars_of("+"), 65535), None);
    assert_eq!(parse_number(&chars_of("1a"), 65535), None);
    assert_eq!(parse_number(&chars_of("007"), 65535), Some(7));
}

#[test]
fn trimming_and_rebuilding() {
    let v = chars_of("\t  a b \n");
    assert_eq!(trim_from(&v, 0), "a b");
    assert_eq!(trim_from(&v, 4), "b");
    assert_eq!(string_of(&chars_of("日本")), "日本");
}
