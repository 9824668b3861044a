use mt_samples::text::{is_whitespace, join_with_space, text_after_last, text_before_first, trim_text};

#[test]
fn trim_removes_unicode_whitespace() {
    assert_eq!(trim_text("\u{3000}\t x y \u{A0}\n"), "x y");
    assert_eq!(trim_text("   "), "");
    assert_eq!(trim_text(""), "");
    assert_eq!(trim_text("abc"), "abc");
}

#[test]
fn whitespace_class_matches_std() {
    for u in 0u32..0x3100 {
        if let Some(c) = char::from_u32(u) {
            assert_eq!(is_whitespace(c), c.is_whitespace(), "{:?}", c);
        }
    }
}

#[test]
fn join_puts_one_space_between_parts() {
    let parts: Vec<String> = vec!["a".to_string(), "b c".to_string(), "".to_string(), "d".to_string()];
    assert_eq!(join_with_space(&parts), "a b c  d");
    assert_eq!(join_with_space(&Vec::new()), "");
    assert_eq!(join_with_space(&vec!["one".to_string()]), "one");
}

#[test]
fn split_pieces_around_delimiter() {
    assert_eq!(text_before_first("a/b/c", '/'), "a");
    assert_eq!(text_after_last("a/b/c", '/'), "c");
    assert_eq!(text_before_first("abc", '/'), "abc");
    assert_eq!(text_after_last("abc", '/'), "abc");
    assert_eq!(text_before_first("/x", '/'), "");
    assert_eq!(text_after_last("x/", '/'), "");
}
