use chat_bridge::text::{chars_of, contains, ends_with, matches_at, same_text};

fn cs(s: &str) -> Vec<char> {
    s.chars().collect()
}

#[test]
fn chars_are_scalar_values() {
    assert_eq!(chars_of("a\u{e4}\u{1f600}"), vec!['a', '\u{e4}', '\u{1f600}']);
    assert!(chars_of("").is_empty());
}

#[test]
fn window_comparison() {
    assert!(matches_at(&cs("hello"), &cs("ell"), 1));
    assert!(!matches_at(&cs("hello"), &cs("ell"), 0));
    assert!(matches_at(&cs("hello"), &cs(""), 5));
}

#[test]
fn infix_search() {
    assert!(contains(&cs("a..b"), &cs("..")));
    assert!(contains(&cs(".."), &cs("..")));
    assert!(contains(&cs("abc"), &cs("")));
    assert!(contains(&cs(""), &cs("")));
    assert!(!contains(&cs("a.b.c"), &cs("..")));
    assert!(!contains(&cs("."), &cs("..")));
    assert!(!contains(&cs(""), &cs("x")));
}

#[test]
fn suffix_test() {
    assert!(ends_with(&cs("app.js"), &cs(".js")));
    assert!(ends_with(&cs(".js"), &cs(".js")));
    assert!(ends_with(&cs("x"), &cs("")));
    assert!(!ends_with(&cs("js"), &cs(".js")));
    assert!(!ends_with(&cs("app.jsx"), &cs(".js")));
}

#[test]
fn text_equality() {
    assert!(same_text("focus", "focus"));
    assert!(same_text("", ""));
    assert!(!same_text("focus", "focus "));
    assert!(!same_text("focus", "Focus"));
    assert!(!same_text("a", ""));
}
