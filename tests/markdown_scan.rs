use back::markdown::{get_first_image, get_tags, get_title};

#[test]
fn title_from_leading_heading() {
    assert_eq!(get_title("# Hello World\nbody"), Some("Hello World".to_string()));
}

#[test]
fn title_is_trimmed_and_crlf_stripped() {
    assert_eq!(get_title("#  Spaced  \r\nrest"), Some("Spaced".to_string()));
}

#[test]
fn title_needs_space_after_hash() {
    assert_eq!(get_title("#Title\nbody"), None);
    assert_eq!(get_title("## Sub\nbody"), None);
}

#[test]
fn title_only_on_first_line() {
    assert_eq!(get_title("Intro\n# Title"), None);
}

#[test]
fn title_of_empty_content_is_none() {
    assert_eq!(get_title(""), None);
}

#[test]
fn title_of_bare_heading_is_empty() {
    assert_eq!(get_title("# "), Some(String::new()));
}

#[test]
fn tags_keep_case_distinct_tokens() {
    let tags = get_tags("# Title\nHello #world and #World");
    assert_eq!(tags, vec!["world".to_string(), "World".to_string()]);
}

#[test]
fn tags_follow_word_characters() {
    let tags = get_tags("#a#b ##c #_x1 # no #\u{e9}t\u{e9}!");
    assert_eq!(
        tags,
        vec![
            "a".to_string(),
            "b".to_string(),
            "c".to_string(),
            "_x1".to_string(),
            "\u{e9}t\u{e9}".to_string()
        ]
    );
}

#[test]
fn tags_of_text_without_hash() {
    assert!(get_tags("plain text").is_empty());
}

#[test]
fn image_with_title() {
    let img = get_first_image("text ![alt](http://x/a.png \"Cap\") more").unwrap();
    assert_eq!(img.url, "http://x/a.png");
    assert_eq!(img.title, Some("Cap".to_string()));
    assert_eq!(img.alt, Some("alt".to_string()));
}

#[test]
fn image_without_title_or_alt() {
    let img = get_first_image("![](u)").unwrap();
    assert_eq!(img.url, "u");
    assert_eq!(img.title, None);
    assert_eq!(img.alt, Some(String::new()));
}

#[test]
fn first_of_two_images() {
    let img = get_first_image("![a](b) ![c](d)").unwrap();
    assert_eq!(img.url, "b");
    assert_eq!(img.alt, Some("a".to_string()));
}

#[test]
fn image_address_is_shortest() {
    let img = get_first_image("![a](b c) x)").unwrap();
    assert_eq!(img.url, "b c");
    assert_eq!(img.title, None);
}

#[test]
fn no_image_across_lines() {
    assert!(get_first_image("![a]\n(b)").is_none());
    assert!(get_first_image("no image here").is_none());
}
