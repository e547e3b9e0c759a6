use sx_metrics::text::{same_text, split};

#[test]
fn split_gives_the_pieces_between_separators() {
    assert_eq!(split("a&b&c", '&'), vec!["a", "b", "c"]);
    assert_eq!(split("key=value", '='), vec!["key", "value"]);
    assert_eq!(split("plain", ','), vec!["plain"]);
}

#[test]
fn split_keeps_empty_pieces() {
    assert_eq!(split("", '&'), vec![""]);
    assert_eq!(split("&", '&'), vec!["", ""]);
    assert_eq!(split("a,,b,", ','), vec!["a", "", "b", ""]);
    assert_eq!(split("|x", '|'), vec!["", "x"]);
}

#[test]
fn split_agrees_with_the_standard_library() {
    for text in ["", "a", "a|b", "||", "1.0000 EOS|memo|more", "\u{e9}|\u{4e2d}\u{6587}|z"] {
        let expected: Vec<&str> = text.split('|').collect();
        assert_eq!(split(text, '|'), expected);
    }
}

#[test]
fn same_text_compares_characters() {
    assert!(same_text("", ""));
    assert!(same_text("fee.sx", "fee.sx"));
    assert!(!same_text("fee.sx", "fee.sy"));
    assert!(!same_text("fee.sx", "fee.s"));
    assert!(!same_text("fee", "fee.sx"));
    assert!(same_text("\u{e9}t\u{e9}", "\u{e9}t\u{e9}"));
    assert!(!same_text("\u{e9}", "e"));
}
