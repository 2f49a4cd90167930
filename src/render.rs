//! Markdown rendering of posts: HTML through comrak, plain text through
//! md_to_text.

use vstd::prelude::*;
use crate::markdown::{get_first_image, first_image_of, image_view, Image};
use crate::text::opt_view;
use crate::post::Post;

verus! {

/// The HTML that comrak renders from `md` with the blog's extensions
/// (GFM tables, strikethrough, autolinks, task lists, footnotes, alerts,
/// math, shortcodes, wikilinks and the rest), heading ids prefixed `content-`.
pub uninterp spec fn html_of(md: Seq<char>) -> Seq<char>;

/// The plain text that md_to_text extracts from `md`.
pub uninterp spec fn plain_text_of(md: Seq<char>) -> Seq<char>;

/// Relies on `comrak::markdown_to_html`, a function of the markdown text and
/// of the options, which are the same on every call.
#[verifier::external_body]
pub fn markdown_to_html(md: &str) -> (r: String)
    ensures
        r@ == html_of(md@),
{
    let extension = comrak::options::Extension {
        strikethrough: true, table: true, autolink: true, tasklist: true, superscript: true,
        footnotes: true, inline_footnotes: true, description_lists: true, alerts: true,
        multiline_block_quotes: true, math_dollars: true, math_code: true, shortcodes: true,
        wikilinks_title_after_pipe: true, wikilinks_title_before_pipe: true, underline: true,
        subscript: true, spoiler: true, greentext: true, cjk_friendly_emphasis: true,
        subtext: true, highlight: true, header_id_prefix: Some("content-".to_string()),
        ..Default::default()
    };
    comrak::markdown_to_html(md, &comrak::Options { extension, ..Default::default() })
}

/// Relies on `md_to_text::convert`, a function of the markdown text alone.
#[verifier::external_body]
fn markdown_to_text(md: &str) -> (r: String)
    ensures
        r@ == plain_text_of(md@),
{
    md_to_text::convert(md)
}

/// A post with its markdown rendered for display.
pub struct HtmlPost {
    pub id: i32,
    pub title: String,
    pub slug: String,
    pub content: String,
    pub html_content: String,
    pub excerpt: Option<String>,
    pub html_excerpt: Option<String>,
    pub meta: Option<String>,
    pub clean_meta: Option<String>,
    pub html_meta: Option<String>,
    pub image: Option<Image>,
    pub outline: Option<String>,
    pub comment_on: Option<bool>,
    pub private: Option<bool>,
    pub audio_url: Option<String>,
    pub published_at: Option<i64>,
    pub created_at: i64,
    pub updated_at: i64,
}

/// `f` applied to an optional text.
pub open spec fn opt_map(o: Option<Seq<char>>, f: spec_fn(Seq<char>) -> Seq<char>) -> Option<Seq<char>> {
    match o {
        Some(s) => Some(f(s)),
        None => None,
    }
}

fn render_opt(o: &Option<String>) -> (r: Option<String>)
    ensures
        opt_view(r) == opt_map(opt_view(*o), |s: Seq<char>| html_of(s)),
{
    match o {
        Some(s) => Some(markdown_to_html(s.as_str())),
        None => None,
    }
}

fn clone_opt(o: &Option<String>) -> (r: Option<String>)
    ensures
        opt_view(r) == opt_view(*o),
{
    match o {
        Some(s) => Some(s.clone()),
        None => None,
    }
}

impl HtmlPost {
    /// The post with its content, excerpt and meta rendered to HTML, its meta
    /// also as plain text, and its first image.
    pub fn new(post: &Post) -> (r: HtmlPost)
        ensures
            r.id == post.id,
            r.title@ == post.title@,
            r.slug@ == post.slug@,
            r.content@ == post.content@,
            r.html_content@ == html_of(post.content@),
            opt_view(r.excerpt) == opt_view(post.excerpt),
            opt_view(r.html_excerpt) == opt_map(opt_view(post.excerpt), |s: Seq<char>| html_of(s)),
            opt_view(r.meta) == opt_view(post.meta),
            opt_view(r.clean_meta) == opt_map(opt_view(post.meta), |s: Seq<char>| plain_text_of(s)),
            opt_view(r.html_meta) == opt_map(opt_view(post.meta), |s: Seq<char>| html_of(s)),
            match r.image {
                Some(img) => first_image_of(post.content@) == Some(image_view(img)),
                None => first_image_of(post.content@) is None,
            },
            opt_view(r.outline) == opt_view(post.outline),
            r.comment_on == post.comment_on,
            r.private == post.private,
            opt_view(r.audio_url) == opt_view(post.audio_url),
            r.published_at == post.published_at,
            r.created_at == post.created_at,
            r.updated_at == post.updated_at,
    {
        let clean_meta = match &post.meta {
            Some(m) => Some(markdown_to_text(m.as_str())),
            None => None,
        };
        HtmlPost {
            id: post.id,
            title: post.title.clone(),
            slug: post.slug.clone(),
            content: post.content.clone(),
            html_content: markdown_to_html(post.content.as_str()),
            excerpt: clone_opt(&post.excerpt),
            html_excerpt: render_opt(&post.excerpt),
            meta: clone_opt(&post.meta),
            clean_meta,
            html_meta: render_opt(&post.meta),
            image: get_first_image(post.content.as_str()),
            outline: clone_opt(&post.outline),
            comment_on: post.comment_on,
            private: post.private,
            audio_url: clone_opt(&post.audio_url),
            published_at: post.published_at,
            created_at: post.created_at,
            updated_at: post.updated_at,
        }
    }
}

} // verus!
