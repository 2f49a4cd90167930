//! Comments on posts, threaded through an optional parent comment.

use vstd::prelude::*;
use crate::pagination::PageError;
use crate::query::{
    ascending, count_statement, filter_views, is_count, is_select, select_statement, sort_column,
    Filter, FilterView, Match, Statement,
};
use crate::text::{opt_view, views};

verus! {

/// A comment as a client submits it.
pub struct NewComment {
    pub post_id: i32,
    pub parent_id: Option<i32>,
    pub nikename: String,
    pub content: String,
    pub approved: Option<bool>,
}

/// A stored comment. Timestamps are microseconds since the Unix epoch, UTC.
pub struct Comment {
    pub id: i32,
    pub post_id: i32,
    pub parent_id: Option<i32>,
    pub nikename: String,
    pub content: String,
    pub approved: Option<bool>,
    pub created_at: i64,
    pub updated_at: i64,
}

/// The query parameters of a comment listing or lookup.
pub struct ReadCommentParams {
    pub id: Option<String>,
    pub post_id: Option<String>,
    pub parent_id: Option<String>,
    pub nikename: Option<String>,
    pub page: Option<u32>,
    pub limit: Option<u32>,
    pub sort_by: Option<String>,
    pub asc: Option<bool>,
}

/// The comment table.
pub open spec fn comments_table() -> Seq<char> {
    "comments"@
}

/// The filters of a comment listing: post and parent by equality, author
/// nickname by substring.
pub open spec fn comment_filters(p: ReadCommentParams) -> Seq<FilterView> {
    seq![
        ("post_id"@, Match::Exact, opt_view(p.post_id)),
        ("parent_id"@, Match::Exact, opt_view(p.parent_id)),
        ("nikename"@, Match::Contains, opt_view(p.nikename)),
    ]
}

/// The columns a comment listing may be sorted by.
pub open spec fn comment_sort_columns() -> Seq<Seq<char>> {
    seq!["created_at"@, "nikename"@, "post_id"@, "parent_id"@]
}

impl ReadCommentParams {
    /// The filters of this listing.
    pub fn filters(&self) -> (r: Vec<Filter>)
        ensures
            filter_views(r@) == comment_filters(*self),
    {
        let mut r: Vec<Filter> = Vec::new();
        r.push(Filter::new("post_id", Match::Exact, &self.post_id));
        r.push(Filter::new("parent_id", Match::Exact, &self.parent_id));
        r.push(Filter::new("nikename", Match::Contains, &self.nikename));
        assert(filter_views(r@) =~= comment_filters(*self));
        r
    }
}

/// The columns a comment listing may be sorted by.
pub fn comment_sort_column_list() -> (r: Vec<String>)
    ensures
        views(r@) == comment_sort_columns(),
{
    let mut r: Vec<String> = Vec::new();
    r.push(String::from_str("created_at"));
    r.push(String::from_str("nikename"));
    r.push(String::from_str("post_id"));
    r.push(String::from_str("parent_id"));
    assert(views(r@) =~= comment_sort_columns());
    r
}

impl Comment {
    /// The statement counting the comments a listing selects.
    pub fn count_paged(params: &ReadCommentParams) -> (r: Statement)
        ensures
            is_count(r, comments_table(), comment_filters(*params)),
    {
        count_statement("comments", &params.filters())
    }

    /// The statement reading the page of comments a listing asks for.
    pub fn read_paged(params: &ReadCommentParams) -> (r: Result<Statement, PageError>)
        ensures
            is_select(
                r,
                comments_table(),
                comment_filters(*params),
                sort_column(params.sort_by, comment_sort_columns()),
                ascending(params.asc),
                params.page,
                params.limit,
            ),
    {
        let fs = params.filters();
        let allowed = comment_sort_column_list();
        select_statement("comments", &fs, &params.sort_by, params.asc, &allowed, params.page, params.limit)
    }
}

} // verus!
