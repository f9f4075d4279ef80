use bracket_fluent::apply_escape;
use bracket_fluent::escape_html;
use bracket_fluent::str_equal;
use bracket_fluent::trim_text;

#[test]
fn escape_rewrites_markup_characters() {
    assert_eq!(escape_html("<>\"&'"), "&lt;&gt;&quot;&amp;&#x27;");
}

#[test]
fn escape_keeps_plain_text() {
    assert_eq!(escape_html("Hello world!"), "Hello world!");
}

#[test]
fn escape_of_empty_text_is_empty() {
    assert_eq!(escape_html(""), "");
}

#[test]
fn escaped_mode_transforms_raw_mode_does_not() {
    assert_eq!(apply_escape("a<b", true), "a&lt;b");
    assert_eq!(apply_escape("a<b", false), "a<b");
}

#[test]
fn trim_strips_leading_and_trailing_whitespace() {
    assert_eq!(trim_text("  hello\n"), "hello");
    assert_eq!(trim_text("\t a b \r\n"), "a b");
}

#[test]
fn trim_keeps_inner_whitespace_and_handles_edges() {
    assert_eq!(trim_text("a  b"), "a  b");
    assert_eq!(trim_text(""), "");
    assert_eq!(trim_text(" \t\r\n"), "");
    assert_eq!(trim_text("x"), "x");
}

#[test]
fn str_equal_compares_by_characters() {
    assert!(str_equal("abc", "abc"));
    assert!(!str_equal("abc", "abd"));
    assert!(!str_equal("abc", "ab"));
    assert!(str_equal("", ""));
}
