//! Posts: their records, the fields derived from their markdown, the
//! listing query, and the steps around creating and deleting one.

use vstd::prelude::*;
use crate::markdown::{get_title, title_of};
use crate::pagination::PageError;
use crate::query::{
    ascending, count_statement, filter_views, is_count, is_select, select_statement, sort_column,
    Filter, FilterView, Match, Statement,
};
use crate::response::{
    i32_of, malformed_id_message, parse_id, Reply, BAD_REQUEST, CREATED, NOT_FOUND, OK,
};
use crate::slug::{derive_slug, is_slug, slug_of};
use crate::text::{opt_view, views};

verus! {

/// A post as a client submits it. Timestamps are microseconds since the
/// Unix epoch, UTC.
pub struct NewPost {
    pub title: Option<String>,
    pub slug: Option<String>,
    pub content: String,
    pub excerpt: Option<String>,
    pub meta: Option<String>,
    pub outline: Option<String>,
    pub comment_on: Option<bool>,
    pub private: Option<bool>,
    pub audio_url: Option<String>,
    pub published_at: Option<i64>,
}

/// A stored post. Timestamps are microseconds since the Unix epoch, UTC.
pub struct Post {
    pub id: i32,
    pub title: String,
    pub slug: String,
    pub content: String,
    pub excerpt: Option<String>,
    pub meta: Option<String>,
    pub outline: Option<String>,
    pub comment_on: Option<bool>,
    pub private: Option<bool>,
    pub audio_url: Option<String>,
    pub published_at: Option<i64>,
    pub created_at: i64,
    pub updated_at: i64,
}

/// The query parameters of a post listing or lookup.
pub struct ReadPostParams {
    pub id: Option<String>,
    pub title: Option<String>,
    pub slug: Option<String>,
    pub page: Option<u32>,
    pub limit: Option<u32>,
    pub sort_by: Option<String>,
    pub asc: Option<bool>,
}

/// Why a post cannot be written.
#[derive(Debug, Clone, Copy, PartialEq, Eq, Structural)]
pub enum PostError {
    /// The content is empty.
    EmptyContent,
    /// The first line of the content is no `# ` heading.
    MissingTitle,
}

/// The fields the server derives from a post's content.
pub struct PostFields {
    pub title: String,
    pub slug: String,
}

/// The title a post is stored under: the one supplied, if any, else the
/// title of the leading heading of its content.
pub open spec fn resolved_title(title: Option<Seq<char>>, content: Seq<char>) -> Option<Seq<char>> {
    match title {
        Some(t) => Some(t),
        None => title_of(content),
    }
}

/// The error, if any, that refuses a post with `content` and the title
/// `title` supplied.
pub open spec fn post_error(title: Option<Seq<char>>, content: Seq<char>) -> Option<PostError> {
    if content.len() == 0 {
        Some(PostError::EmptyContent)
    } else if resolved_title(title, content) is None {
        Some(PostError::MissingTitle)
    } else {
        None
    }
}

/// What a post lookup asks the store for.
pub enum PostLookup {
    ById(i32),
    /// The identifier given writes no `i32`: refuse the request.
    Malformed(Reply),
    BySlug(String),
    Paged,
}

/// What to do after the store answered the deletion of a post.
pub enum DeleteStep {
    /// The post is gone: remove its tag associations next.
    RemoveTagRelations(i32),
    /// Answer the request.
    Respond(Reply),
}

/// The post table.
pub open spec fn posts_table() -> Seq<char> {
    "posts"@
}

/// The filters of a post listing: title by substring.
pub open spec fn post_filters(p: ReadPostParams) -> Seq<FilterView> {
    seq![("title"@, Match::Contains, opt_view(p.title))]
}

/// The columns a post listing may be sorted by.
pub open spec fn post_sort_columns() -> Seq<Seq<char>> {
    seq!["title"@, "id"@, "published_at"@, "created_at"@, "slug"@]
}

impl ReadPostParams {
    /// The filters of this listing.
    pub fn filters(&self) -> (r: Vec<Filter>)
        ensures
            filter_views(r@) == post_filters(*self),
    {
        let mut r: Vec<Filter> = Vec::new();
        r.push(Filter::new("title", Match::Contains, &self.title));
        assert(filter_views(r@) =~= post_filters(*self));
        r
    }
}

/// The columns a post listing may be sorted by.
pub fn post_sort_column_list() -> (r: Vec<String>)
    ensures
        views(r@) == post_sort_columns(),
{
    let mut r: Vec<String> = Vec::new();
    r.push(String::from_str("title"));
    r.push(String::from_str("id"));
    r.push(String::from_str("published_at"));
    r.push(String::from_str("created_at"));
    r.push(String::from_str("slug"));
    assert(views(r@) =~= post_sort_columns());
    r
}

impl Post {
    /// Title and slug of a post with `content`: the title supplied, or else
    /// the title of the leading `# ` heading, and its slug. Empty content is
    /// refused first, so that nothing is written for it.
    pub fn derive_fields(title: &Option<String>, content: &str) -> (r: Result<PostFields, PostError>)
        ensures
            match r {
                Ok(f) => {
                    &&& post_error(opt_view(*title), content@) is None
                    &&& resolved_title(opt_view(*title), content@) == Some(f.title@)
                    &&& f.slug@ == slug_of(f.title@)
                    &&& is_slug(f.slug@)
                },
                Err(e) => post_error(opt_view(*title), content@) == Some(e),
            },
            content@.len() == 0 ==> r == Err::<PostFields, PostError>(PostError::EmptyContent),
    {
        if content.is_empty() {
            return Err(PostError::EmptyContent);
        }
        let resolved = match title {
            Some(t) => Some(t.clone()),
            None => get_title(content),
        };
        match resolved {
            None => Err(PostError::MissingTitle),
            Some(title) => {
                let slug = derive_slug(title.as_str());
                Ok(PostFields { title, slug })
            },
        }
    }

    /// The statement counting the posts a listing selects.
    pub fn count_paged(params: &ReadPostParams) -> (r: Statement)
        ensures
            is_count(r, posts_table(), post_filters(*params)),
    {
        count_statement("posts", &params.filters())
    }

    /// The statement reading the page of posts a listing asks for.
    pub fn read_paged(params: &ReadPostParams) -> (r: Result<Statement, PageError>)
        ensures
            is_select(
                r,
                posts_table(),
                post_filters(*params),
                sort_column(params.sort_by, post_sort_columns()),
                ascending(params.asc),
                params.page,
                params.limit,
            ),
    {
        let fs = params.filters();
        let allowed = post_sort_column_list();
        select_statement("posts", &fs, &params.sort_by, params.asc, &allowed, params.page, params.limit)
    }

    /// The store column pairs `(post_id, tag_id)` that link the post to each
    /// of `tag_ids`: `post_id` repeated once per tag.
    pub fn assign_tags(post_id: i32, tag_ids: &Vec<i32>) -> (r: Vec<i32>)
        ensures
            r@ == Seq::new(tag_ids@.len(), |i: int| post_id),
    {
        let mut r: Vec<i32> = Vec::new();
        let mut i: usize = 0;
        while i < tag_ids.len()
            invariant
                i <= tag_ids.len(),
                r@ == Seq::new(i as nat, |k: int| post_id),
            decreases tag_ids.len() - i,
        {
            r.push(post_id);
            i = i + 1;
            assert(r@ =~= Seq::new(i as nat, |k: int| post_id));
        }
        r
    }

    /// Which lookup a read request makes: by identifier if it names one, else
    /// by slug if it names one, else a paged listing. An identifier that
    /// writes no `i32` is refused as a client error.
    pub fn lookup(params: &ReadPostParams) -> (r: PostLookup)
        ensures
            match params.id {
                Some(id) => match i32_of(id@) {
                    Some(v) => r == PostLookup::ById(v),
                    None => {
                        &&& r is Malformed
                        &&& r->Malformed_0.status == BAD_REQUEST
                        &&& r->Malformed_0.message@ == malformed_id_message(id@)
                        &&& !r->Malformed_0.with_payload
                    },
                },
                None => match params.slug {
                    Some(s) => r is BySlug && r->BySlug_0@ == s@,
                    None => r is Paged,
                },
            },
    {
        match &params.id {
            Some(id) => match parse_id(id.as_str()) {
                Some(v) => PostLookup::ById(v),
                None => PostLookup::Malformed(Reply::detailed(BAD_REQUEST, "Malformed identifier: ", id.as_str())),
            },
            None => match &params.slug {
                Some(s) => PostLookup::BySlug(s.clone()),
                None => PostLookup::Paged,
            },
        }
    }

    /// The post a delete request names, or the reply refusing it: the
    /// identifier is mandatory and must write an `i32`.
    pub fn delete_target(params: &ReadPostParams) -> (r: Result<i32, Reply>)
        ensures
            match params.id {
                Some(id) => match i32_of(id@) {
                    Some(v) => r == Ok::<i32, Reply>(v),
                    None => {
                        &&& r is Err
                        &&& r->Err_0.status == BAD_REQUEST
                        &&& r->Err_0.message@ == malformed_id_message(id@)
                        &&& !r->Err_0.with_payload
                    },
                },
                None => {
                    &&& r is Err
                    &&& r->Err_0.status == BAD_REQUEST
                    &&& r->Err_0.message@ == "post_id is mandatory"@
                    &&& !r->Err_0.with_payload
                },
            },
    {
        match &params.id {
            Some(id) => match parse_id(id.as_str()) {
                Some(v) => Ok(v),
                None => Err(Reply::detailed(BAD_REQUEST, "Malformed identifier: ", id.as_str())),
            },
            None => Err(Reply::new(BAD_REQUEST, "post_id is mandatory", false)),
        }
    }

    /// The reply once a post was created and its tags were upserted and
    /// linked, or failed to be (`tag_failure`): the post stands either way,
    /// so the reply is a creation that carries the post, and only its
    /// message tells of the failure.
    pub fn after_create(tag_failure: &Option<String>) -> (r: Reply)
        ensures
            r.status == CREATED,
            r.with_payload,
            tag_failure is None ==> r.message@ == "Created"@,
            tag_failure is Some ==> r.message@ == "Created; error assigning tags: "@ + tag_failure->Some_0@,
    {
        match tag_failure {
            None => Reply::new(CREATED, "Created", true),
            Some(e) => {
                let mut r = Reply::detailed(CREATED, "Created; error assigning tags: ", e.as_str());
                r.with_payload = true;
                r
            },
        }
    }

    /// The step after the store answered the deletion of post `post_id`:
    /// `failure` holds the store's error, if any. A deleted post has its tag
    /// associations removed next; a failed deletion is answered as not found.
    pub fn after_delete(post_id: i32, failure: &Option<String>) -> (r: DeleteStep)
        ensures
            failure is None ==> r == DeleteStep::RemoveTagRelations(post_id),
            failure is Some ==> {
                &&& r is Respond
                &&& r->Respond_0.status == NOT_FOUND
                &&& r->Respond_0.message@ == "Error deleting post: "@ + failure->Some_0@
                &&& !r->Respond_0.with_payload
            },
    {
        match failure {
            None => DeleteStep::RemoveTagRelations(post_id),
            Some(e) => DeleteStep::Respond(Reply::detailed(NOT_FOUND, "Error deleting post: ", e.as_str())),
        }
    }

    /// The reply once the tag associations of a deleted post were removed,
    /// or failed to be (`failure`): the deletion stands either way, so the
    /// reply is a success that carries the deleted post, and only its
    /// message tells of the failure.
    pub fn after_relations_removed(failure: &Option<String>) -> (r: Reply)
        ensures
            r.status == OK,
            r.with_payload,
            failure is None ==> r.message@ == "Post deleted"@,
            failure is Some ==> r.message@ == "Error deleting post-tag relations: "@ + failure->Some_0@,
    {
        match failure {
            None => Reply::new(OK, "Post deleted", true),
            Some(e) => {
                let mut r = Reply::detailed(OK, "Error deleting post-tag relations: ", e.as_str());
                r.with_payload = true;
                r
            },
        }
    }
}

} // verus!
