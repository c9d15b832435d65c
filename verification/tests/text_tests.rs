use chatte_vpn::text::{chars_of, contains_str, contains_trimmed_line, equals_literal, is_ws_char, trim_str};

#[test]
fn trimming_matches_std() {
    for s in ["", "  ", " a ", "\t\r\nx y\u{3000}", "\u{a0}z\u{2028}", "no", "\u{85}in\u{85}"] {
        assert_eq!(trim_str(s), s.trim());
    }
}

#[test]
fn white_space_matches_std() {
    for c in ['\t', '\n', '\u{b}', '\u{c}', '\r', ' ', '\u{85}', '\u{a0}', '\u{1680}', '\u{2000}', '\u{200a}', '\u{2028}', '\u{2029}', '\u{202f}', '\u{205f}', '\u{3000}', 'a', '\u{200b}', '\u{feff}', '0'] {
        assert_eq!(is_ws_char(c), c.is_whitespace(), "{c:?}");
    }
}

#[test]
fn line_search_matches_std() {
    let texts = ["a\nb", "a\r\nb\r\n", "\n\n", "x", "", " b \n", "ab\nb"];
    for t in texts {
        for l in ["a", "b", "", "ab"] {
            assert_eq!(contains_trimmed_line(t, l), t.lines().any(|x| x.trim() == l), "{t:?} {l:?}");
        }
    }
}

#[test]
fn substring_search_matches_std() {
    for (s, p) in [("abc", "bc"), ("abc", ""), ("", ""), ("", "a"), ("aab", "ab"), ("ab", "abc")] {
        assert_eq!(contains_str(s, p), s.contains(p));
    }
}

#[test]
fn small_helpers() {
    assert_eq!(chars_of("héllo"), vec!['h', 'é', 'l', 'l', 'o']);
    assert!(equals_literal(&"abc".to_string(), "abc"));
    assert!(!equals_literal(&"abc".to_string(), "abd"));
}
