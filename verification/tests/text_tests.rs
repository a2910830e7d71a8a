use hermes::text::{
    contains, encode_utf16, eq_ignore_ascii_case, join_strings, normalize_whitespace,
    split_char, split_whitespace, to_ascii_lowercase, trim, u64_to_decimal,
};

#[test]
fn trims_unicode_white_space() {
    assert_eq!(trim("  a b \t\n"), "a b");
    assert_eq!(trim("\u{3000}x\u{a0}"), "x");
    assert_eq!(trim("   "), "");
    assert_eq!(trim(""), "");
    assert_eq!(trim(" \u{200b}x"), "\u{200b}x");
}

#[test]
fn ascii_case() {
    assert_eq!(to_ascii_lowercase("AbC-ÄÖ"), "abc-ÄÖ");
    assert!(eq_ignore_ascii_case("WhisperX", "whisperx"));
    assert!(!eq_ignore_ascii_case("whisper", "whisperx"));
}

#[test]
fn searching() {
    assert!(contains("windows terminal", "terminal"));
    assert!(contains("abc", ""));
    assert!(!contains("ab", "abc"));
    assert!(!contains("cmd", "cmd.exe"));
}

#[test]
fn splitting_and_joining() {
    assert_eq!(split_char("a+b++c", '+'), vec!["a", "b", "", "c"]);
    assert_eq!(split_char("", '+'), vec![""]);
    assert_eq!(split_whitespace("  one two\t three  "), vec!["one", "two", "three"]);
    assert!(split_whitespace(" \n ").is_empty());
    let parts = vec!["a".to_string(), "b".to_string(), "c".to_string()];
    assert_eq!(join_strings(&parts, ", "), "a, b, c");
    assert_eq!(join_strings(&Vec::new(), ", "), "");
    assert_eq!(normalize_whitespace("  hello \n  world "), "hello world");
}

#[test]
fn decimal_and_utf16() {
    assert_eq!(u64_to_decimal(0), "0");
    assert_eq!(u64_to_decimal(1234567890), "1234567890");
    assert_eq!(u64_to_decimal(u64::MAX), u64::MAX.to_string());
    for s in ["", "abc", "héllo", "😀 ok", "\u{ffff}\u{10000}"] {
        assert_eq!(encode_utf16(s), s.encode_utf16().collect::<Vec<u16>>());
    }
}

#[test]
fn normalizing_is_stable() {
    let once = normalize_whitespace("  Hello,\n  world \t again ");
    assert_eq!(once, "Hello, world again");
    assert_eq!(normalize_whitespace(&once), once);
    assert_eq!(normalize_whitespace(" \t\n"), "");
}
