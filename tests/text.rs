use veko_dome::{contains, is_space, parse_proxy_list, trim};

#[test]
fn proxy_list_lines_are_trimmed_and_blanks_dropped() {
    let text = "  http://a:8080 \r\n\n\thttp://b:3128\n   \nsocks5://c:1080";
    assert_eq!(parse_proxy_list(text), vec![
        "http://a:8080".to_string(),
        "http://b:3128".to_string(),
        "socks5://c:1080".to_string(),
    ]);
}

#[test]
fn empty_proxy_list() {
    assert!(parse_proxy_list("").is_empty());
    assert!(parse_proxy_list("\n\n").is_empty());
}

#[test]
fn trim_removes_unicode_white_space() {
    assert_eq!(trim("\u{3000} x y\u{a0}\n"), "x y");
    assert_eq!(trim("   "), "");
    assert_eq!(trim("abc"), "abc");
}

#[test]
fn white_space_matches_std() {
    for c in ['\t', '\n', '\r', ' ', '\u{85}', '\u{2003}', 'a', '0', '\u{200b}'] {
        assert_eq!(is_space(c), c.is_whitespace());
    }
}

#[test]
fn contains_finds_substrings() {
    assert!(contains("hello world", "o w"));
    assert!(contains("abc", ""));
    assert!(!contains("abc", "abcd"));
    assert!(!contains("abc", "ac"));
    assert!(contains("abc", "c"));
}
