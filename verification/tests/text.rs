use text_review::text::trim;

#[test]
fn trim_removes_whitespace_at_both_ends() {
    assert_eq!(trim("  hello  "), "hello");
    assert_eq!(trim("\t\r\n hello"), "hello");
    assert_eq!(trim("hello \n"), "hello");
    assert_eq!(trim("\u{a0}\u{2003}hello\u{3000}\u{85}\u{2028}"), "hello");
}

#[test]
fn trim_keeps_whitespace_inside() {
    assert_eq!(trim(" a  b\n c "), "a  b\n c");
    assert_eq!(trim("a b"), "a b");
}

#[test]
fn trim_keeps_a_bare_text() {
    assert_eq!(trim("hello"), "hello");
    assert_eq!(trim("x"), "x");
    assert_eq!(trim("\u{e9}t\u{e9}"), "\u{e9}t\u{e9}");
    assert_eq!(trim("\u{200b}a\u{200b}"), "\u{200b}a\u{200b}");
}

#[test]
fn trim_of_whitespace_alone_is_empty() {
    assert_eq!(trim(""), "");
    assert_eq!(trim(" "), "");
    assert_eq!(trim(" \t\n\r\u{b}\u{c}\u{a0}\u{1680}\u{202f}\u{205f} "), "");
}

#[test]
fn trim_keeps_one_character_between_whitespace() {
    assert_eq!(trim(" x "), "x");
    assert_eq!(trim("\n\u{1f600}\n"), "\u{1f600}");
}

#[test]
fn trim_agrees_with_the_standard_library() {
    for s in ["", " ", "a", " a", "a ", " a ", "  a b  ", "\n\n", "\u{3000}x\u{3000}y\u{3000}", "_ _"] {
        assert_eq!(trim(s), s.trim(), "{:?}", s);
    }
}

#[test]
fn trim_twice_is_trim_once() {
    for s in ["  a b  ", "\t", "x", " \u{a0}x y\u{a0} "] {
        assert_eq!(trim(&trim(s)), trim(s));
    }
}
