use mustang::text::{chars_of, find_chars, is_whitespace, str_eq, trim, trim_end_matches};

#[test]
fn trim_removes_unicode_white_space() {
    assert_eq!(trim("  a b \n"), "a b");
    assert_eq!(trim("\u{85}x\u{2028}"), "x");
    assert_eq!(trim("   "), "");
    assert_eq!(trim(""), "");
    assert_eq!(trim("\u{200b}x"), "\u{200b}x");
    for c in ['\t', '\n', ' ', '\u{a0}', '\u{1680}', '\u{2000}', '\u{200a}', '\u{202f}', '\u{205f}', '\u{3000}'] {
        assert_eq!(is_whitespace(c), c.is_whitespace());
    }
    for c in ['a', '\u{200b}', '\u{180e}', '\u{feff}', '0'] {
        assert_eq!(is_whitespace(c), c.is_whitespace());
    }
}

#[test]
fn trim_end_matches_repeats() {
    assert_eq!(trim_end_matches("10pxpx", "px"), "10");
    assert_eq!(trim_end_matches("10p", "px"), "10p");
    assert_eq!(trim_end_matches("px", "px"), "");
    assert_eq!(trim_end_matches("abc", ""), "abc");
    assert_eq!(trim_end_matches("aaa", "aa"), "a");
}

#[test]
fn find_and_compare() {
    let v = chars_of("hello world");
    assert_eq!(find_chars(&v, &chars_of("o")), Some(4));
    assert_eq!(find_chars(&v, &chars_of("world")), Some(6));
    assert_eq!(find_chars(&v, &chars_of("xyz")), None);
    assert_eq!(find_chars(&v, &chars_of("")), Some(0));
    assert!(str_eq("héllo", "héllo"));
    assert!(!str_eq("a", "ab"));
    assert_eq!(chars_of("héllo").len(), 5);
}
