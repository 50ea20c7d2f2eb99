use bilibili_ticket::text::{i64_text, str_equals, u64_text};

#[test]
fn u64_text_matches_to_string() {
    for n in [0u64, 1, 9, 10, 11, 99, 100, 12345, 4294967296, u64::MAX - 1, u64::MAX] {
        assert_eq!(u64_text(n), n.to_string());
    }
}

#[test]
fn i64_text_matches_to_string() {
    for x in [0i64, 1, -1, 9, -10, 123456789, -987654321, i64::MAX, i64::MIN, i64::MIN + 1] {
        assert_eq!(i64_text(x), x.to_string());
    }
}

#[test]
fn str_equals_compares_characters() {
    assert!(str_equals("", ""));
    assert!(str_equals("在售", "在售"));
    assert!(!str_equals("在售", "预售"));
    assert!(!str_equals("abc", "ab"));
    assert!(!str_equals("ab", "abc"));
    assert!(str_equals("createV2", "createV2"));
}
