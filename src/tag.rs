//! Tags: their records, the listing query, and the batch of tags that a
//! post's hashtags become.

use vstd::prelude::*;
use crate::markdown::{get_tags, hashtags};
use crate::pagination::PageError;
use crate::query::{
    ascending, count_statement, filter_views, is_count, is_select, select_statement, sort_column,
    Filter, FilterView, Match, Statement,
};
use crate::slug::{derive_slug, is_slug, slug_of};
use crate::text::{opt_view, views};

verus! {

/// A tag as a client submits it.
pub struct NewTag {
    pub tag: String,
}

/// A stored tag. Timestamps are microseconds since the Unix epoch, UTC.
pub struct Tag {
    pub id: i32,
    pub tag: String,
    pub slug: String,
    pub created_at: i64,
    pub updated_at: i64,
}

/// The query parameters of a tag listing or lookup.
pub struct ReadTagParams {
    pub id: Option<String>,
    pub post_id: Option<i32>,
    pub tag: Option<String>,
    pub slug: Option<String>,
    pub page: Option<u32>,
    pub limit: Option<u32>,
    pub sort_by: Option<String>,
    pub asc: Option<bool>,
}

/// Tag texts to upsert, each once, with their slugs at the same positions.
pub struct TagBatch {
    pub tags: Vec<String>,
    pub slugs: Vec<String>,
}

/// The tag table.
pub open spec fn tags_table() -> Seq<char> {
    "tags"@
}

/// The filters of a tag listing: tag text and slug by substring.
pub open spec fn tag_filters(p: ReadTagParams) -> Seq<FilterView> {
    seq![("tag"@, Match::Contains, opt_view(p.tag)), ("slug"@, Match::Contains, opt_view(p.slug))]
}

/// The columns a tag listing may be sorted by.
pub open spec fn tag_sort_columns() -> Seq<Seq<char>> {
    seq!["tag"@, "slug"@, "created_at"@]
}

/// `s` with each text kept at its first occurrence only.
pub open spec fn distinct_in_order(s: Seq<Seq<char>>) -> Seq<Seq<char>>
    decreases s.len(),
{
    if s.len() == 0 {
        Seq::empty()
    } else {
        let d = distinct_in_order(s.drop_last());
        if d.contains(s.last()) {
            d
        } else {
            d.push(s.last())
        }
    }
}

/// Keeping each text at its first occurrence keeps every text and repeats none.
pub proof fn distinct_in_order_keeps_each_text_once(s: Seq<Seq<char>>)
    ensures
        distinct_in_order(s).no_duplicates(),
        forall|x: Seq<char>| #[trigger] distinct_in_order(s).contains(x) <==> s.contains(x),
    decreases s.len(),
{
    if s.len() > 0 {
        let rest = s.drop_last();
        distinct_in_order_keeps_each_text_once(rest);
        let d = distinct_in_order(rest);
        assert forall|x: Seq<char>| s.contains(x) <==> (rest.contains(x) || x == s.last()) by {
            if s.contains(x) {
                let i = choose|i: int| 0 <= i < s.len() && s[i] == x;
                if i < s.len() - 1 {
                    assert(rest[i] == x);
                }
            }
            if rest.contains(x) {
                let i = choose|i: int| 0 <= i < rest.len() && rest[i] == x;
                assert(s[i] == x);
            }
            if x == s.last() {
                assert(s[s.len() - 1] == x);
            }
        };
        if !d.contains(s.last()) {
            let e = d.push(s.last());
            assert forall|x: Seq<char>| e.contains(x) <==> (d.contains(x) || x == s.last()) by {
                if e.contains(x) {
                    let i = choose|i: int| 0 <= i < e.len() && e[i] == x;
                    if i < d.len() {
                        assert(d[i] == x);
                    }
                }
                if d.contains(x) {
                    let i = choose|i: int| 0 <= i < d.len() && d[i] == x;
                    assert(e[i] == x);
                }
                if x == s.last() {
                    assert(e[d.len() as int] == x);
                }
            };
            assert forall|i: int, j: int| 0 <= i < e.len() && 0 <= j < e.len() && i != j implies e[i] != e[j] by {
                if i < d.len() && j < d.len() {
                } else if i < d.len() {
                    assert(d.contains(e[i]));
                } else {
                    assert(d.contains(e[j]));
                }
            };
        }
    }
}

impl ReadTagParams {
    /// The filters of this listing.
    pub fn filters(&self) -> (r: Vec<Filter>)
        ensures
            filter_views(r@) == tag_filters(*self),
    {
        let mut r: Vec<Filter> = Vec::new();
        r.push(Filter::new("tag", Match::Contains, &self.tag));
        r.push(Filter::new("slug", Match::Contains, &self.slug));
        assert(filter_views(r@) =~= tag_filters(*self));
        r
    }
}

/// The columns a tag listing may be sorted by.
pub fn tag_sort_column_list() -> (r: Vec<String>)
    ensures
        views(r@) == tag_sort_columns(),
{
    let mut r: Vec<String> = Vec::new();
    r.push(String::from_str("tag"));
    r.push(String::from_str("slug"));
    r.push(String::from_str("created_at"));
    assert(views(r@) =~= tag_sort_columns());
    r
}

fn contains_text(v: &Vec<String>, t: &String) -> (r: bool)
    ensures
        r == views(v@).contains(t@),
{
    let mut i: usize = 0;
    while i < v.len()
        invariant
            i <= v.len(),
            forall|k: int| 0 <= k < i ==> v@[k]@ != t@,
        decreases v.len() - i,
    {
        if v[i] == *t {
            assert(views(v@)[i as int] == t@);
            return true;
        }
        i = i + 1;
    }
    assert(!views(v@).contains(t@));
    false
}

impl Tag {
    /// The slug stored with a tag text.
    pub fn slug_for(tag: &NewTag) -> (r: String)
        ensures
            r@ == slug_of(tag.tag@),
            is_slug(r@),
    {
        derive_slug(tag.tag.as_str())
    }

    /// The batch to upsert for the texts `string_tags`: each distinct text
    /// once, in order of first occurrence, with its slug. Texts that differ
    /// only in case stay distinct (the store keys tags by text).
    pub fn create_or_update(string_tags: &Vec<String>) -> (r: TagBatch)
        ensures
            views(r.tags@) == distinct_in_order(views(string_tags@)),
            views(r.tags@).no_duplicates(),
            forall|t: Seq<char>| views(r.tags@).contains(t) <==> views(string_tags@).contains(t),
            r.slugs@.len() == r.tags@.len(),
            forall|k: int| 0 <= k < r.tags@.len() ==> #[trigger] r.slugs@[k]@ == slug_of(r.tags@[k]@),
    {
        let mut tags: Vec<String> = Vec::new();
        let mut slugs: Vec<String> = Vec::new();
        let mut i: usize = 0;
        while i < string_tags.len()
            invariant
                i <= string_tags.len(),
                views(tags@) == distinct_in_order(views(string_tags@).take(i as int)),
                slugs@.len() == tags@.len(),
                forall|k: int| 0 <= k < tags@.len() ==> #[trigger] slugs@[k]@ == slug_of(tags@[k]@),
            decreases string_tags.len() - i,
        {
            let t = &string_tags[i];
            let ghost prefix = views(string_tags@).take(i + 1);
            assert(prefix.drop_last() =~= views(string_tags@).take(i as int));
            assert(prefix.last() == t@);
            if !contains_text(&tags, t) {
                let ghost old_tags = tags@;
                tags.push(t.clone());
                slugs.push(derive_slug(t.as_str()));
                assert(views(tags@) =~= views(old_tags).push(t@));
            }
            i = i + 1;
        }
        assert(views(string_tags@).take(string_tags.len() as int) =~= views(string_tags@));
        proof { distinct_in_order_keeps_each_text_once(views(string_tags@)); }
        TagBatch { tags, slugs }
    }

    /// The batch of tags that the hashtags of a post's `content` become.
    pub fn batch_for_content(content: &str) -> (r: TagBatch)
        ensures
            views(r.tags@) == distinct_in_order(hashtags(content@)),
            r.slugs@.len() == r.tags@.len(),
            forall|k: int| 0 <= k < r.tags@.len() ==> #[trigger] r.slugs@[k]@ == slug_of(r.tags@[k]@),
    {
        let found = get_tags(content);
        Tag::create_or_update(&found)
    }

    /// The statement counting the tags a listing selects.
    pub fn count_paged(params: &ReadTagParams) -> (r: Statement)
        ensures
            is_count(r, tags_table(), tag_filters(*params)),
    {
        count_statement("tags", &params.filters())
    }

    /// The statement reading the page of tags a listing asks for.
    pub fn read_paged(params: &ReadTagParams) -> (r: Result<Statement, PageError>)
        ensures
            is_select(
                r,
                tags_table(),
                tag_filters(*params),
                sort_column(params.sort_by, tag_sort_columns()),
                ascending(params.asc),
                params.page,
                params.limit,
            ),
    {
        let fs = params.filters();
        let allowed = tag_sort_column_list();
        select_statement("tags", &fs, &params.sort_by, params.asc, &allowed, params.page, params.limit)
    }
}

} // verus!
