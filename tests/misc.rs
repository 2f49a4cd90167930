use back::class::Class;
use back::response::{parse_id, requested_id, Reply};

#[test]
fn class_names() {
    assert_eq!(Class::Page.value(), "page");
    assert_eq!(Class::Post.value(), "post");
    assert_eq!(Class::Tag.value(), "tag");
    assert_eq!(Class::Comment.value(), "comment");
}

#[test]
fn ids_parse_only_when_well_formed() {
    assert_eq!(parse_id("42"), Some(42));
    assert_eq!(parse_id("+7"), Some(7));
    assert_eq!(parse_id("-3"), Some(-3));
    assert_eq!(parse_id("abc"), None);
    assert_eq!(parse_id(""), None);
    assert_eq!(parse_id("99999999999"), None);
    assert_eq!(parse_id(" 5"), None);
}

#[test]
fn requested_ids() {
    assert_eq!(requested_id(&Some("8".to_string())).ok(), Some(Some(8)));
    assert_eq!(requested_id(&None).ok(), Some(None));
    let r = requested_id(&Some("x8".to_string())).err().unwrap();
    assert_eq!(r.status, 400);
    assert_eq!(r.message, "Malformed identifier: x8");
    assert!(!r.with_payload);
}

#[test]
fn store_failures() {
    let missing = Reply::store_failure(true, "Error reading posts: ", "RowNotFound");
    assert_eq!(missing.status, 404);
    assert_eq!(missing.message, "Error reading posts: RowNotFound");
    let other = Reply::store_failure(false, "Error reading posts: ", "timeout");
    assert_eq!(other.status, 400);
    assert!(!other.with_payload);
}

#[test]
fn replies_carry_messages() {
    let r = Reply::detailed(400, "Error reading posts: ", "timeout");
    assert_eq!(r.status, 400);
    assert_eq!(r.message, "Error reading posts: timeout");
    assert!(!r.with_payload);
}
