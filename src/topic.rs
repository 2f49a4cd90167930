//! Topics that posts are grouped under.

use vstd::prelude::*;
use crate::pagination::PageError;
use crate::query::{
    ascending, count_statement, filter_views, is_count, is_select, select_statement, sort_column,
    Filter, FilterView, Match, Statement,
};
use crate::text::{opt_view, views};

verus! {

/// A topic as a client submits it.
pub struct NewTopic {
    pub name: String,
    pub slug: String,
    pub active: bool,
}

/// A stored topic. Timestamps are microseconds since the Unix epoch, UTC.
pub struct Topic {
    pub id: i32,
    pub name: String,
    pub slug: String,
    pub active: bool,
    pub created_at: i64,
    pub updated_at: i64,
}

/// The query parameters of a topic listing.
pub struct ReadTopicParams {
    pub id: Option<i32>,
    pub name: Option<String>,
    pub page: Option<u32>,
    pub limit: Option<u32>,
    pub sort_by: Option<String>,
    pub asc: Option<bool>,
}

/// The query parameters of a topic lookup: one topic, or all of them.
pub struct TopicParams {
    pub topic_id: Option<i32>,
}

/// The topic table.
pub open spec fn topics_table() -> Seq<char> {
    "topics"@
}

/// The filters of a topic listing: name by substring.
pub open spec fn topic_filters(p: ReadTopicParams) -> Seq<FilterView> {
    seq![("name"@, Match::Contains, opt_view(p.name))]
}

/// The columns a topic listing may be sorted by.
pub open spec fn topic_sort_columns() -> Seq<Seq<char>> {
    seq!["name"@]
}

impl ReadTopicParams {
    /// The filters of this listing.
    pub fn filters(&self) -> (r: Vec<Filter>)
        ensures
            filter_views(r@) == topic_filters(*self),
    {
        let mut r: Vec<Filter> = Vec::new();
        r.push(Filter::new("name", Match::Contains, &self.name));
        assert(filter_views(r@) =~= topic_filters(*self));
        r
    }
}

/// The columns a topic listing may be sorted by.
pub fn topic_sort_column_list() -> (r: Vec<String>)
    ensures
        views(r@) == topic_sort_columns(),
{
    let mut r: Vec<String> = Vec::new();
    r.push(String::from_str("name"));
    assert(views(r@) =~= topic_sort_columns());
    r
}

impl Topic {
    /// The statement counting the topics a listing selects.
    pub fn count_paged(params: &ReadTopicParams) -> (r: Statement)
        ensures
            is_count(r, topics_table(), topic_filters(*params)),
    {
        count_statement("topics", &params.filters())
    }

    /// The statement reading the page of topics a listing asks for.
    pub fn read_paged(params: &ReadTopicParams) -> (r: Result<Statement, PageError>)
        ensures
            is_select(
                r,
                topics_table(),
                topic_filters(*params),
                sort_column(params.sort_by, topic_sort_columns()),
                ascending(params.asc),
                params.page,
                params.limit,
            ),
    {
        let fs = params.filters();
        let allowed = topic_sort_column_list();
        select_statement("topics", &fs, &params.sort_by, params.asc, &allowed, params.page, params.limit)
    }
}

} // verus!
