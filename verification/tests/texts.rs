use workstate::collections::{sort_texts, TextMap};
use workstate::error::{ErrorCategory, WorkstateError};
use workstate::json::{parse_json, Json};
use workstate::paths::{
    path_file_name, path_has_parent_step, path_is_absolute, path_is_home_relative, path_join,
    paths_agree,
};
use workstate::text::{
    text_decimal, text_find, text_hexadecimal, text_lines, text_lower, text_parse_unsigned,
    text_rfind, text_signed_decimal, text_split, text_trim, text_words,
};
use workstate::time::TimeSpan;

#[test]
fn texts_are_trimmed_split_and_searched_as_std_does() {
    for text in ["", " a ", "\u{a0}x\u{2003}", "\u{200b}", "a\nb", "\t\r\n", "äöü ß"] {
        assert_eq!(text_trim(text), text.trim());
        assert_eq!(text_lines(text), text.lines().map(str::to_owned).collect::<Vec<_>>());
        assert_eq!(
            text_words(text),
            text.split_whitespace().map(str::to_owned).collect::<Vec<_>>()
        );
        assert_eq!(text_split(text, 'a'), text.split('a').map(str::to_owned).collect::<Vec<_>>());
        assert_eq!(text_lower(text), text.to_ascii_lowercase());
    }
    assert_eq!(text_lines("a\r\nb\r"), vec!["a".to_owned(), "b\r".to_owned()]);
    assert_eq!(text_find("abcabc", "bc"), Some(1));
    assert_eq!(text_rfind("abcabc", "bc"), Some(4));
    assert_eq!(text_find("abc", "x"), None);
}

#[test]
fn numbers_are_written_and_read() {
    assert_eq!(text_decimal(0), "0");
    assert_eq!(text_decimal(1_000_000), "1000000");
    assert_eq!(text_signed_decimal(-5), "-5");
    assert_eq!(text_signed_decimal(i64::MIN), i64::MIN.to_string());
    assert_eq!(text_hexadecimal(0xbeef, 16), "000000000000beef");
    assert_eq!(text_parse_unsigned("65535", 65535), Some(65535));
    assert_eq!(text_parse_unsigned("65536", 65535), None);
    assert_eq!(text_parse_unsigned("+7", 10), Some(7));
    assert_eq!(text_parse_unsigned("", 10), None);
    assert_eq!(text_parse_unsigned("7x", 10), None);
}

#[test]
fn texts_are_sorted_by_their_bytes() {
    let texts: Vec<String> = ["b", "a", "ä", "", "ab", "A"].map(str::to_owned).to_vec();
    let mut expected = texts.clone();
    expected.sort();
    assert_eq!(sort_texts(&texts), expected);
}

#[test]
fn maps_keep_the_last_value_in_order_of_the_keys() {
    let mut map = TextMap::new();
    map.insert("b".to_owned(), "1".to_owned());
    map.insert("a".to_owned(), "2".to_owned());
    map.insert("b".to_owned(), "3".to_owned());
    assert_eq!(map.get("b"), Some("3".to_owned()));
    assert_eq!(map.get("c"), None);
    assert_eq!(
        map.entries(),
        vec![("a".to_owned(), "2".to_owned()), ("b".to_owned(), "3".to_owned())]
    );
}

#[test]
fn paths_are_read_as_std_does() {
    for path in ["/", "/a/b", "a/./b/", "a//b", "..", "/a/..", "", ".", "./a"] {
        assert_eq!(path_is_absolute(path), std::path::Path::new(path).is_absolute());
        assert_eq!(
            path_file_name(path).as_deref(),
            std::path::Path::new(path).file_name().and_then(|name| name.to_str())
        );
        for other in ["/", "/a/b/", "a/b", "./a", "a", "."] {
            assert_eq!(
                paths_agree(path, other),
                std::path::Path::new(path) == std::path::Path::new(other)
            );
            assert_eq!(
                path_join(path, other),
                std::path::Path::new(path).join(other).display().to_string()
            );
        }
    }
    assert!(path_has_parent_step("a/../b"));
    assert!(!path_has_parent_step("a/..b"));
    assert!(path_is_home_relative("~"));
    assert!(path_is_home_relative("$HOME/x"));
    assert!(!path_is_home_relative("~user"));
}

#[test]
fn json_documents_are_read() {
    let Ok(value) = parse_json(br#"{"a": [1, -2, "x", null, true], "b": {"c": 1.5}}"#) else {
        panic!("the document is well formed");
    };
    let Some(Json::Array(items)) = value.get("a") else {
        panic!("the list is there");
    };
    assert_eq!(items[0].as_unsigned(), Some(1));
    assert_eq!(items[1].as_unsigned(), None);
    assert_eq!(items[1].as_signed(), Some(-2));
    assert_eq!(items[2].as_text(), Some("x".to_owned()));
    assert_eq!(items[4].as_bool(), Some(true));
    assert!(value.get("b").and_then(|inner| inner.get("c")).is_some());
    assert!(value.get("z").is_none());
    let Err(text) = parse_json(b"{") else {
        panic!("the document is cut off");
    };
    assert!(text.contains("EOF while parsing"));
}

#[test]
fn errors_are_rendered_with_their_context() {
    let error = WorkstateError::new(ErrorCategory::Runtime, "it failed").with_context("key", "value");
    let text = error.render();
    assert!(text.contains("it failed"));
    assert!(text.contains("key"));
    assert!(text.contains("value"));
}

#[test]
fn spans_are_counted_in_nanoseconds() {
    let span = TimeSpan::from_millis(1500);
    assert_eq!(span.nanoseconds, 1_500_000_000);
    assert_eq!(span.as_millis(), 1500);
    assert!(!span.is_zero());
    assert_eq!(span.shorter(TimeSpan::from_millis(20)), TimeSpan::from_millis(20));
}
