use back::slug::derive_slug;
use back::tag::{NewTag, Tag};

#[test]
fn slug_of_title() {
    assert_eq!(derive_slug("My Test String!!!1!1"), "my-test-string-1-1");
    assert_eq!(derive_slug("  --test_-_cool"), "test-cool");
    assert_eq!(derive_slug("\u{c6}\u{fa}\u{171}--cool?"), "aeuu-cool");
}

#[test]
fn slug_twice_is_slug_once() {
    let once = derive_slug("Hello, World! & more");
    let twice = derive_slug(&once);
    assert_eq!(once, "hello-world-more");
    assert_eq!(once, twice);
    assert_eq!(derive_slug("Hello, World! & more"), once);
}

#[test]
fn slug_has_only_slug_characters() {
    let s = derive_slug("\u{bf}Qu\u{e9} pas\u{f3}?  Ni\u{f1}o_42 \u{2014} fin");
    assert!(!s.is_empty());
    assert!(s.chars().all(|c| c.is_ascii_lowercase() || c.is_ascii_digit() || c == '-'));
    assert!(!s.starts_with('-') && !s.ends_with('-') && !s.contains("--"));
}

#[test]
fn tag_slug_for_new_tag() {
    let t = NewTag { tag: "Rust Lang".to_string() };
    assert_eq!(Tag::slug_for(&t), "rust-lang");
}

#[test]
fn ascii_slug_mapping() {
    assert_eq!(derive_slug("World"), "world");
    assert_eq!(derive_slug("  Hello__World--2024!! "), "hello-world-2024");
    assert_eq!(derive_slug("!!!"), "");
    assert_eq!(derive_slug(""), "");
}
