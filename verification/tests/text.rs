use cardwire_tray::text::{decimal_string, join_path, join_strings, parse_u32, sorted_texts, strip_prefix, text_equal, text_less_eq};

#[test]
fn decimal_numerals() {
    assert_eq!(decimal_string(0), "0");
    assert_eq!(decimal_string(7), "7");
    assert_eq!(decimal_string(10), "10");
    assert_eq!(decimal_string(305), "305");
    assert_eq!(decimal_string(u32::MAX), "4294967295");
    for n in [0u32, 1, 9, 10, 99, 100, 12345, u32::MAX] {
        assert_eq!(decimal_string(n), n.to_string());
    }
}

#[test]
fn parse_u32_like_std() {
    let cases = ["42", "+7", "", "+", "-", "-1", "4294967295", "4294967296", "99999999999", "12a", "007", " 1", "+0"];
    for c in cases {
        assert_eq!(parse_u32(c), c.parse::<u32>().ok(), "input {:?}", c);
    }
    assert_eq!(parse_u32("+12"), Some(12));
    assert_eq!(parse_u32("4294967296"), None);
}

#[test]
fn parse_reads_back_decimal() {
    for n in [0u32, 5, 40, 65535, 4000000000, u32::MAX] {
        assert_eq!(parse_u32(&decimal_string(n)), Some(n));
    }
}

#[test]
fn strip_prefix_like_std() {
    assert_eq!(strip_prefix("abc/def", "abc/"), Some("def"));
    assert_eq!(strip_prefix("abc", "abc"), Some(""));
    assert_eq!(strip_prefix("ab", "abc"), None);
    assert_eq!(strip_prefix("xbc", "abc"), None);
    assert_eq!(strip_prefix("é/1", "é/"), Some("1"));
}

#[test]
fn join_path_like_path_join() {
    assert_eq!(join_path("/a", "b/c"), "/a/b/c");
    assert_eq!(join_path("/a/", "b"), "/a/b");
    assert_eq!(join_path("", "icons"), "icons");
}

#[test]
fn text_order_like_str_ord() {
    let words = ["", "a", "ab", "b", "B", "é", "z", "ab c", "abc"];
    for a in words {
        for b in words {
            assert_eq!(text_less_eq(a, b), a <= b, "{:?} {:?}", a, b);
            assert_eq!(text_equal(a, b), a == b);
        }
    }
}

#[test]
fn sorted_texts_and_join() {
    let v = vec!["zsh".to_string(), "Xorg".to_string(), "firefox".to_string(), "Xorg".to_string()];
    let s = sorted_texts(&v);
    assert_eq!(s, vec!["Xorg", "Xorg", "firefox", "zsh"]);
    assert_eq!(join_strings(&s, ", "), "Xorg, Xorg, firefox, zsh");
    assert_eq!(join_strings(&Vec::new(), ", "), "");
    assert_eq!(join_strings(&vec!["one".to_string()], ", "), "one");
}
