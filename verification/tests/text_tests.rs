use ygg_admin::text::{i64_text, parse_i32, parse_u32, parse_u64, second_word, str_eq, trim, u64_text};

#[test]
fn trimming_uses_unicode_whitespace() {
    assert_eq!(trim("  a b \t"), "a b");
    assert_eq!(trim("\u{3000}全角\u{3000}"), "全角");
    assert_eq!(trim("   "), "");
    assert_eq!(trim(&trim(" x ")), trim(" x "));
}

#[test]
fn parsing_follows_from_str() {
    assert_eq!(parse_i32("-42"), Some(-42));
    assert_eq!(parse_i32("+7"), Some(7));
    assert_eq!(parse_i32("2147483648"), None);
    assert_eq!(parse_i32("-2147483648"), Some(i32::MIN));
    assert_eq!(parse_i32(" 1"), None);
    assert_eq!(parse_i32(""), None);
    assert_eq!(parse_i32("-"), None);
    assert_eq!(parse_u32("-1"), None);
    assert_eq!(parse_u32("4294967295"), Some(u32::MAX));
    assert_eq!(parse_u64("18446744073709551615"), Some(u64::MAX));
    assert_eq!(parse_u64("18446744073709551616"), None);
}

#[test]
fn rendering_integers() {
    assert_eq!(u64_text(0), "0");
    assert_eq!(u64_text(1234567890), "1234567890");
    assert_eq!(i64_text(-15), "-15");
    assert_eq!(i64_text(i64::MIN), "-9223372036854775808");
}

#[test]
fn rendered_integers_parse_back() {
    for n in [0, 1, -1, 42, -987654, i32::MAX, i32::MIN] {
        assert_eq!(parse_i32(&trim(&i64_text(n as i64))), Some(n));
    }
}

#[test]
fn words_and_equality() {
    assert_eq!(second_word("missed  12 events"), Some("12".to_string()));
    assert_eq!(second_word("one"), None);
    assert!(str_eq("日志", "日志"));
    assert!(!str_eq("a", "ab"));
}
