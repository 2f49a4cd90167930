use back::post::{DeleteStep, Post, PostError, PostLookup, ReadPostParams};
use back::response::{BAD_REQUEST, CREATED, NOT_FOUND, OK};
use back::tag::Tag;

fn params(id: Option<&str>, slug: Option<&str>) -> ReadPostParams {
    ReadPostParams {
        id: id.map(|s| s.to_string()),
        title: None,
        slug: slug.map(|s| s.to_string()),
        page: None,
        limit: None,
        sort_by: None,
        asc: None,
    }
}

#[test]
fn empty_content_is_refused() {
    assert_eq!(Post::derive_fields(&None, "").err(), Some(PostError::EmptyContent));
}

#[test]
fn content_without_heading_is_refused() {
    assert_eq!(Post::derive_fields(&None, "no heading\n# late").err(), Some(PostError::MissingTitle));
}

#[test]
fn fields_from_heading() {
    let f = Post::derive_fields(&None, "# Hello, World!\nbody").unwrap();
    assert_eq!(f.title, "Hello, World!");
    assert_eq!(f.slug, "hello-world");
}

#[test]
fn supplied_title_wins() {
    let f = Post::derive_fields(&Some("My Own Title".to_string()), "# Heading\nbody").unwrap();
    assert_eq!(f.title, "My Own Title");
    assert_eq!(f.slug, "my-own-title");
    let g = Post::derive_fields(&Some(String::new()), "x").unwrap();
    assert_eq!(g.title, "");
    assert_eq!(g.slug, "");
    let h = Post::derive_fields(&Some("Title".to_string()), "no heading").unwrap();
    assert_eq!(h.slug, "title");
}

#[test]
fn empty_content_is_refused_even_with_title() {
    assert_eq!(Post::derive_fields(&Some("T".to_string()), "").err(), Some(PostError::EmptyContent));
}

#[test]
fn deleted_post_removes_relations_next() {
    match Post::after_delete(5, &None) {
        DeleteStep::RemoveTagRelations(id) => assert_eq!(id, 5),
        DeleteStep::Respond(_) => panic!("expected the relation cleanup"),
    }
}

#[test]
fn failed_delete_is_not_found() {
    match Post::after_delete(5, &Some("gone".to_string())) {
        DeleteStep::Respond(r) => {
            assert_eq!(r.status, NOT_FOUND);
            assert_eq!(r.message, "Error deleting post: gone");
            assert!(!r.with_payload);
        }
        DeleteStep::RemoveTagRelations(_) => panic!("expected a reply"),
    }
}

#[test]
fn relation_failure_keeps_the_deletion() {
    let r = Post::after_relations_removed(&Some("boom".to_string()));
    assert_eq!(r.status, OK);
    assert!(r.with_payload);
    assert_eq!(r.message, "Error deleting post-tag relations: boom");
    let ok = Post::after_relations_removed(&None);
    assert_eq!(ok.status, OK);
    assert!(ok.with_payload);
    assert_eq!(ok.message, "Post deleted");
}

#[test]
fn delete_needs_an_id() {
    let r = Post::delete_target(&params(None, None)).err().unwrap();
    assert_eq!(r.status, BAD_REQUEST);
    assert_eq!(r.message, "post_id is mandatory");
    assert_eq!(Post::delete_target(&params(Some("12"), None)).ok(), Some(12));
    let m = Post::delete_target(&params(Some("x12"), None)).err().unwrap();
    assert_eq!(m.status, BAD_REQUEST);
    assert_eq!(m.message, "Malformed identifier: x12");
}

#[test]
fn lookup_prefers_id_then_slug() {
    assert!(matches!(Post::lookup(&params(Some("3"), Some("s"))), PostLookup::ById(3)));
    match Post::lookup(&params(None, Some("my-post"))) {
        PostLookup::BySlug(s) => assert_eq!(s, "my-post"),
        _ => panic!("expected a slug lookup"),
    }
    assert!(matches!(Post::lookup(&params(None, None)), PostLookup::Paged));
    match Post::lookup(&params(Some("seven"), Some("s"))) {
        PostLookup::Malformed(r) => {
            assert_eq!(r.status, BAD_REQUEST);
            assert_eq!(r.message, "Malformed identifier: seven");
        }
        _ => panic!("expected the malformed identifier to be refused"),
    }
}

#[test]
fn creation_stands_when_tags_fail() {
    let ok = Post::after_create(&None);
    assert_eq!(ok.status, CREATED);
    assert!(ok.with_payload);
    assert_eq!(ok.message, "Created");
    let r = Post::after_create(&Some("deadlock".to_string()));
    assert_eq!(r.status, CREATED);
    assert!(r.with_payload);
    assert_eq!(r.message, "Created; error assigning tags: deadlock");
}

#[test]
fn assign_tags_pairs_each_tag() {
    assert_eq!(Post::assign_tags(4, &vec![1, 2, 3]), vec![4, 4, 4]);
    assert!(Post::assign_tags(4, &vec![]).is_empty());
}

#[test]
fn tag_batch_dedups_in_order() {
    let b = Tag::create_or_update(&vec![
        "rust".to_string(),
        "go".to_string(),
        "rust".to_string(),
        "Go".to_string(),
    ]);
    assert_eq!(b.tags, vec!["rust".to_string(), "go".to_string(), "Go".to_string()]);
    assert_eq!(b.slugs, vec!["rust".to_string(), "go".to_string(), "go".to_string()]);
}

#[test]
fn tag_batch_from_content() {
    let b = Tag::batch_for_content("# Title\nHello #world and #World");
    assert_eq!(b.tags, vec!["world".to_string(), "World".to_string()]);
    assert_eq!(b.slugs, vec!["world".to_string(), "world".to_string()]);
}

#[test]
fn tag_batch_of_nothing() {
    let b = Tag::batch_for_content("no tags");
    assert!(b.tags.is_empty());
    assert!(b.slugs.is_empty());
}

#[test]
fn one_association_per_distinct_token() {
    let b = Tag::batch_for_content("# Title\nHello #world and #World and #world again");
    assert_eq!(b.tags, vec!["world".to_string(), "World".to_string()]);
    // The store hands back one id per tag of the batch.
    let tag_ids: Vec<i32> = vec![11, 12];
    assert_eq!(Post::assign_tags(7, &tag_ids), vec![7, 7]);
}
