use back::post::Post;
use back::render::{markdown_to_html, HtmlPost};

fn sample() -> Post {
    Post {
        id: 9,
        title: "Title".to_string(),
        slug: "title".to_string(),
        content: "# Title\n\nSome *text* ![pic](img.png)".to_string(),
        excerpt: None,
        meta: Some("**Bold** meta".to_string()),
        outline: Some("o".to_string()),
        comment_on: Some(true),
        private: None,
        audio_url: None,
        published_at: Some(5),
        created_at: 1,
        updated_at: 2,
    }
}

#[test]
fn html_post_renders_markdown() {
    let post = sample();
    let h = HtmlPost::new(&post);
    assert_eq!(h.id, 9);
    assert_eq!(h.content, post.content);
    assert!(h.html_content.contains("<em>text</em>"));
    assert!(h.html_content.contains("<h1"));
    assert_eq!(h.html_excerpt, None);
    assert_eq!(h.clean_meta, Some("Bold meta".to_string()));
    assert!(h.html_meta.unwrap().contains("<strong>Bold</strong>"));
    let img = h.image.unwrap();
    assert_eq!(img.url, "img.png");
    assert_eq!(img.alt, Some("pic".to_string()));
    assert_eq!(h.outline, Some("o".to_string()));
    assert_eq!(h.published_at, Some(5));
    assert_eq!((h.created_at, h.updated_at), (1, 2));
}

#[test]
fn extensions_are_on() {
    assert!(markdown_to_html("~~x~~").contains("<del>x</del>"));
    assert!(markdown_to_html("# Head").contains("content-head"));
}
