use obsidian_mcp::config::{listen_address, Transport};
use obsidian_mcp::text::{
    char_is_whitespace, ends_with_newline, push_decimal, starts_with, str_equal, trim_start,
};

fn decimal_of(n: u32) -> String {
    let mut s = String::new();
    push_decimal(&mut s, n);
    s
}

#[test]
fn decimal_matches_display() {
    for n in [0u32, 1, 9, 10, 11, 99, 100, 404, 2026, 65535, 4_294_967_295] {
        assert_eq!(decimal_of(n), n.to_string());
    }
}

#[test]
fn decimal_appends_to_existing_text() {
    let mut s = String::from("year ");
    push_decimal(&mut s, 2026);
    assert_eq!(s, "year 2026");
}

#[test]
fn string_equality_and_prefix() {
    assert!(str_equal("abc", "abc"));
    assert!(!str_equal("abc", "abd"));
    assert!(!str_equal("abc", "ab"));
    assert!(str_equal("", ""));
    assert!(starts_with("TABLE file", "TABLE"));
    assert!(!starts_with("TAB", "TABLE"));
    assert!(starts_with("anything", ""));
    assert!(!starts_with("table", "TABLE"));
}

#[test]
fn trim_start_drops_unicode_whitespace() {
    assert_eq!(trim_start("  \t\nx y "), "x y ");
    assert_eq!(trim_start("\u{3000}\u{a0}TABLE"), "TABLE");
    assert_eq!(trim_start("   "), "");
    assert_eq!(trim_start("none"), "none");
    for s in ["  a", "\u{2003}b", "\u{85}c", "\r\nd", "\u{200b}e"] {
        assert_eq!(trim_start(s), s.trim_start());
    }
}

#[test]
fn whitespace_agrees_with_std() {
    for c in ['\t', '\n', '\u{b}', '\u{c}', '\r', ' ', '\u{85}', '\u{a0}', '\u{1680}', '\u{2000}',
        '\u{200a}', '\u{2028}', '\u{2029}', '\u{202f}', '\u{205f}', '\u{3000}', 'a', '\u{200b}',
        '\u{feff}', '0', '\u{180e}']
    {
        assert_eq!(char_is_whitespace(c), c.is_whitespace(), "{:?}", c);
    }
}

#[test]
fn newline_ending() {
    assert!(ends_with_newline("a\n"));
    assert!(!ends_with_newline("a"));
    assert!(!ends_with_newline(""));
}

#[test]
fn transport_names_and_listen_address() {
    assert_eq!(Transport::from_name("stdio"), Some(Transport::Stdio));
    assert_eq!(Transport::from_name("http"), Some(Transport::Http));
    assert_eq!(Transport::from_name("HTTP"), None);
    assert_eq!(Transport::from_name("sse"), None);
    assert_eq!(listen_address("127.0.0.1", 3000), "127.0.0.1:3000");
    assert_eq!(listen_address("0.0.0.0", 0), "0.0.0.0:0");
}
