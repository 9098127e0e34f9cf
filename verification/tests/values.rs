use graphjin::json::Json;
use graphjin::text::{
    decimal_text, first_chars, has_part, has_tail, join_texts, only_white_space, or_empty, same_text,
    trim_trailing,
};

#[test]
fn white_space_is_that_of_the_standard_library() {
    for code in 0u32..=0x10ffff {
        if let Some(c) = char::from_u32(code) {
            assert_eq!(only_white_space(&c.to_string()), c.is_whitespace(), "{:x}", code);
        }
    }
}

#[test]
fn blank_texts_are_those_that_trim_to_nothing() {
    for s in vec!["", " ", "\t \r\n", "a", " a ", "\u{a0}\u{2003}", "\u{200b}", "\u{85}x"] {
        assert_eq!(only_white_space(s), s.trim().is_empty(), "{:?}", s);
    }
}

#[test]
fn parts_and_tails_are_those_of_the_standard_library() {
    let texts = vec!["", "a", "ab", "aab", "abab", "\u{e9}ab", "ba_cursor", "_cursor", "cursor"];
    for s in &texts {
        for part in &texts {
            assert_eq!(has_part(s, part), s.contains(part), "{:?} {:?}", s, part);
            assert_eq!(has_tail(s, part), s.ends_with(part), "{:?} {:?}", s, part);
            assert_eq!(same_text(s, part), s == part, "{:?} {:?}", s, part);
        }
        assert_eq!(trim_trailing(s, 'b'), s.trim_end_matches('b'));
    }
}

#[test]
fn numbers_are_written_in_decimal() {
    for n in vec![0, 7, 9, 10, 99, 100, 404, 65535, usize::MAX] {
        assert_eq!(decimal_text(n), n.to_string());
    }
}

#[test]
fn lines_are_joined() {
    let lines = |l: Vec<&str>| -> Vec<String> { l.into_iter().map(|s| s.to_string()).collect() };
    assert_eq!(join_texts(&lines(vec![]), "\n"), "");
    assert_eq!(join_texts(&lines(vec!["a"]), "\n"), "a");
    assert_eq!(join_texts(&lines(vec!["a", "", "c"]), "--"), "a----c");
}

#[test]
fn beginnings_are_of_characters() {
    assert_eq!(first_chars("h\u{e9}llo", 2), "h\u{e9}");
    assert_eq!(first_chars("h\u{e9}llo", 9), "h\u{e9}llo");
    assert_eq!(first_chars("x", 0), "");
}

#[test]
fn absent_texts_are_empty() {
    assert_eq!(or_empty(None), "");
    assert_eq!(or_empty(Some("t".to_string())), "t");
}

#[test]
fn members_are_found_by_key() {
    let json = Json::Object(vec![
        ("b".to_string(), Json::Bool(true)),
        ("a".to_string(), Json::Text("x".to_string())),
    ]);
    assert_eq!(json.str_of("a"), Some("x"));
    assert!(json.str_of("b").is_none());
    assert!(matches!(json.get("b"), Some(Json::Bool(true))));
    assert!(json.get("c").is_none());
    assert!(Json::Null.get("a").is_none());
    assert!(json.as_array().is_none());
    assert!(json.is_object() && !json.is_null() && Json::Null.is_null());
    assert_eq!(json.clone().str_of("a"), Some("x"));
    let twice = Json::Object(vec![
        ("a".to_string(), Json::Text("x".to_string())),
        ("a".to_string(), Json::Text("y".to_string())),
    ]);
    assert_eq!(twice.str_of("a"), Some("y"));
}
