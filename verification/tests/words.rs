use mintctl::text::{
    contains, extend, find_text, from_chars, is_white, join, lines, parse_u16, pieces, same,
    second_piece, split_word, starts_with, strip_prefix, text_or, text_or_empty, to_chars,
    to_decimal, to_lower, trim, trim_end_of, trim_start_char, trim_start_of, words,
};

fn owned(list: &[&str]) -> Vec<String> {
    list.iter().map(|s| s.to_string()).collect()
}

#[test]
fn white_space_is_that_of_char() {
    let mut c: u32 = 0;
    while c <= 0x10FFFF {
        if let Some(c) = char::from_u32(c) {
            assert_eq!(is_white(c), c.is_whitespace(), "{:?}", c);
        }
        c += 1;
    }
}

#[test]
fn trimming_is_that_of_str() {
    for s in ["", " ", " a ", "\u{a0}x\u{3000}", "a b", "\t\na\r\n", "é"] {
        assert_eq!(trim(s), s.trim());
        assert_eq!(to_lower(s), s.to_ascii_lowercase());
    }
    assert_eq!(trim_start_of("-_-a-", '-', '_'), "a-");
    assert_eq!(trim_start_char("##x#", '#'), "x#");
    assert_eq!(trim_end_of("https://x///", '/'), "https://x");
}

#[test]
fn lines_are_those_of_str() {
    for s in ["", "\n", "a", "a\n", "a\r\nb\n\nc", "\r\n", "a\r", "a\rb\n"] {
        let expected: Vec<String> = s.lines().map(|l| l.to_string()).collect();
        assert_eq!(lines(s), expected, "{:?}", s);
    }
    for s in ["", ",", "a,b", "a,,b,"] {
        let expected: Vec<String> = s.split(',').map(|l| l.to_string()).collect();
        assert_eq!(pieces(s, ','), expected, "{:?}", s);
    }
}

#[test]
fn ports_are_read_like_integers() {
    for s in ["0", "65535", "65536", "", "+", "+80", "-1", "080", "99999999999999999999", " 1", "1a"] {
        assert_eq!(parse_u16(s), s.parse::<u16>().ok(), "{:?}", s);
    }
    for n in [0u64, 9, 10, 3338, 65535, u64::MAX] {
        assert_eq!(to_decimal(n), n.to_string());
    }
    for port in [0u16, 1, 80, 443, 9090, 65535] {
        assert_eq!(parse_u16(&to_decimal(port as u64)), Some(port));
    }
}

#[test]
fn searching_is_that_of_str() {
    for (s, t) in [("", ""), ("abc", "bc"), ("abc", ""), ("aab", "ab"), ("a", "ab"), ("é--x", "--")] {
        assert_eq!(contains(s, t), s.contains(t));
        assert_eq!(strip_prefix(s, t), s.strip_prefix(t).map(|r| r.to_string()));
        assert_eq!(starts_with(s, t), s.starts_with(t));
    }
    assert_eq!(find_text(&to_chars("aab"), 0, &to_chars("ab")), Some(1));
    assert_eq!(second_piece("x/tag/v1/tag/v2", "/tag/").as_deref(), Some("v1"));
    assert_eq!(second_piece("x", "/tag/"), None);
    assert_eq!(split_word("  one two "), Some(("one".to_string(), " two ".to_string())));
    assert_eq!(split_word("   "), None);
    assert!(same("a", "a") && !same("a", "ab") && !same("a", "b"));
    assert_eq!(from_chars(&to_chars("abcd"), 1, 3), "bc");
}

#[test]
fn lists_of_strings_are_joined_and_extended() {
    let list = words(&["a", "b"]);
    assert_eq!(list, owned(&["a", "b"]));
    assert_eq!(join(&list, ", "), "a, b");
    assert_eq!(join(&Vec::new(), ", "), "");
    let mut more = owned(&["a", "b"]);
    extend(&mut more, &list);
    assert_eq!(more, owned(&["a", "b", "a", "b"]));
    assert_eq!(text_or(&None, "d"), "d");
    assert_eq!(text_or(&Some("x".to_string()), "d"), "x");
    assert_eq!(text_or_empty(&None), "");
}
