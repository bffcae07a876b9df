use game_engine::keyed::KeyedList;
use game_engine::text::{
    chars_of, char_is_whitespace, str_concat, decimal_string, find_char, lines_of, rfind_char, str_contains, str_ends_with,
    str_eq, str_starts_with, substring, trim_end_char, trim_start_char, trim_str,
};

#[test]
fn trimming_matches_std() {
    for s in ["", "  ", " a ", "\t\nx y\r\n", "\u{3000}z\u{85}", "no-space", "\u{200B}x"] {
        assert_eq!(trim_str(s), s.trim());
    }
    assert_eq!(trim_start_char("//a/b/", '/'), "//a/b/".trim_start_matches('/'));
    assert_eq!(trim_end_char("//a/b//", '/'), "//a/b".to_string());
    assert_eq!(trim_start_char("///", '/'), "");
}

#[test]
fn whitespace_matches_std() {
    for u in 0u32..0x3100 {
        if let Some(c) = char::from_u32(u) {
            assert_eq!(char_is_whitespace(c), c.is_whitespace(), "{:?}", c);
        }
    }
}

#[test]
fn lines_match_std() {
    for s in ["", "a", "a\n", "a\r\nb", "a\n\nb\n", "\n", "x\r", "x\r\ny\r\n", "\r\n\r\n"] {
        let ours: Vec<String> = lines_of(s);
        let std: Vec<String> = s.lines().map(|l| l.to_string()).collect();
        assert_eq!(ours, std, "{:?}", s);
    }
}

#[test]
fn searching() {
    assert!(str_contains("hello world", "o w"));
    assert!(str_contains("abc", ""));
    assert!(!str_contains("abc", "abcd"));
    assert!(str_starts_with("https://x", "https://"));
    assert!(!str_starts_with("http", "https"));
    assert!(str_ends_with("bird.ron", ".ron"));
    assert!(!str_ends_with("ron", ".ron"));
    assert!(str_eq("ä", "ä"));
    assert!(!str_eq("a", "ab"));
    let v = chars_of("a\"b\"c");
    assert_eq!(find_char(&v, '"'), Some(1));
    assert_eq!(rfind_char(&v, '"'), Some(3));
    assert_eq!(find_char(&v, 'z'), None);
    assert_eq!(substring("héllo", 1, 3), "él");
    assert_eq!(str_concat("ab", "cd"), "abcd");
}

#[test]
fn decimals() {
    for n in [0u64, 7, 10, 99, 100, 12345, u64::MAX] {
        assert_eq!(decimal_string(n), n.to_string());
    }
}

#[test]
fn keyed_list_behaves_like_a_map() {
    let mut k: KeyedList<u32> = KeyedList::new();
    k.insert("b".to_string(), 1);
    k.insert("a".to_string(), 2);
    k.insert("b".to_string(), 3);
    assert_eq!(k.len(), 2);
    assert_eq!(k.get("b"), Some(&3));
    let (first, v) = k.entry_at(0);
    assert_eq!(first, "b");
    assert_eq!(*v, 3);
    assert_eq!(k.remove("b"), Some(3));
    assert_eq!(k.remove("b"), None);
    assert!(!k.contains_key("b"));
    assert!(k.contains_key("a"));
}
