use back::comment::{Comment, ReadCommentParams};
use back::pagination::PageError;
use back::post::{Post, ReadPostParams};
use back::query::{count_statement, select_statement, Filter, Match};
use back::tag::{ReadTagParams, Tag};
use back::topic::{ReadTopicParams, Topic};

fn post_params() -> ReadPostParams {
    ReadPostParams { id: None, title: None, slug: None, page: None, limit: None, sort_by: None, asc: None }
}

#[test]
fn post_count_with_title_filter() {
    let mut p = post_params();
    p.title = Some("rust".to_string());
    let st = Post::count_paged(&p);
    assert_eq!(st.sql, "SELECT COUNT(*) total FROM posts WHERE 1=1 AND title LIKE $1");
    assert_eq!(st.texts, vec!["%rust%".to_string()]);
    assert!(st.ints.is_empty());
}

#[test]
fn post_page_sorted_descending() {
    let mut p = post_params();
    p.title = Some("rust".to_string());
    p.sort_by = Some("title".to_string());
    p.asc = Some(false);
    p.page = Some(3);
    p.limit = Some(5);
    let st = Post::read_paged(&p).unwrap();
    assert_eq!(
        st.sql,
        "SELECT * FROM posts WHERE 1=1 AND title LIKE $1 ORDER BY title DESC LIMIT $2 OFFSET $3"
    );
    assert_eq!(st.texts, vec!["%rust%".to_string()]);
    assert_eq!(st.ints, vec![5, 10]);
}

#[test]
fn post_page_with_defaults() {
    let st = Post::read_paged(&post_params()).unwrap();
    assert_eq!(st.sql, "SELECT * FROM posts WHERE 1=1 LIMIT $1 OFFSET $2");
    assert!(st.texts.is_empty());
    assert_eq!(st.ints, vec![10, 0]);
}

#[test]
fn unknown_sort_column_is_dropped() {
    let mut p = post_params();
    p.sort_by = Some("title; DROP TABLE posts".to_string());
    let st = Post::read_paged(&p).unwrap();
    assert_eq!(st.sql, "SELECT * FROM posts WHERE 1=1 LIMIT $1 OFFSET $2");
}

#[test]
fn post_page_zero_is_refused() {
    let mut p = post_params();
    p.page = Some(0);
    assert_eq!(Post::read_paged(&p).err(), Some(PageError::PageBelowOne));
    p.page = Some(1);
    p.limit = Some(0);
    assert_eq!(Post::read_paged(&p).err(), Some(PageError::ZeroLimit));
}

fn comment_params() -> ReadCommentParams {
    ReadCommentParams {
        id: None,
        post_id: None,
        parent_id: None,
        nikename: None,
        page: None,
        limit: None,
        sort_by: None,
        asc: None,
    }
}

#[test]
fn comment_count_and_page_share_predicate() {
    let mut p = comment_params();
    p.post_id = Some("7".to_string());
    p.nikename = Some("ann".to_string());
    let count = Comment::count_paged(&p);
    let page = Comment::read_paged(&p).unwrap();
    assert_eq!(
        count.sql,
        "SELECT COUNT(*) total FROM comments WHERE 1=1 AND post_id = $1 AND nikename LIKE $2"
    );
    assert_eq!(
        page.sql,
        "SELECT * FROM comments WHERE 1=1 AND post_id = $1 AND nikename LIKE $2 LIMIT $3 OFFSET $4"
    );
    assert_eq!(count.texts, vec!["7".to_string(), "%ann%".to_string()]);
    assert_eq!(count.texts, page.texts);
}

#[test]
fn comment_page_by_parent_sorted() {
    let mut p = comment_params();
    p.parent_id = Some("3".to_string());
    p.sort_by = Some("created_at".to_string());
    p.page = Some(2);
    let st = Comment::read_paged(&p).unwrap();
    assert_eq!(
        st.sql,
        "SELECT * FROM comments WHERE 1=1 AND parent_id = $1 ORDER BY created_at ASC LIMIT $2 OFFSET $3"
    );
    assert_eq!(st.texts, vec!["3".to_string()]);
    assert_eq!(st.ints, vec![10, 10]);
}

#[test]
fn tag_count_with_two_filters() {
    let p = ReadTagParams {
        id: None,
        post_id: None,
        tag: Some("ru".to_string()),
        slug: Some("r".to_string()),
        page: None,
        limit: None,
        sort_by: Some("slug".to_string()),
        asc: None,
    };
    let st = Tag::count_paged(&p);
    assert_eq!(st.sql, "SELECT COUNT(*) total FROM tags WHERE 1=1 AND tag LIKE $1 AND slug LIKE $2");
    assert_eq!(st.texts, vec!["%ru%".to_string(), "%r%".to_string()]);
    let page = Tag::read_paged(&p).unwrap();
    assert_eq!(
        page.sql,
        "SELECT * FROM tags WHERE 1=1 AND tag LIKE $1 AND slug LIKE $2 ORDER BY slug ASC LIMIT $3 OFFSET $4"
    );
}

#[test]
fn topic_page_by_name() {
    let p = ReadTopicParams {
        id: None,
        name: Some("x".to_string()),
        page: Some(4),
        limit: Some(25),
        sort_by: Some("name".to_string()),
        asc: Some(true),
    };
    let st = Topic::read_paged(&p).unwrap();
    assert_eq!(
        st.sql,
        "SELECT * FROM topics WHERE 1=1 AND name LIKE $1 ORDER BY name ASC LIMIT $2 OFFSET $3"
    );
    assert_eq!(st.ints, vec![25, 75]);
    let count = Topic::count_paged(&p);
    assert_eq!(count.sql, "SELECT COUNT(*) total FROM topics WHERE 1=1 AND name LIKE $1");
}

#[test]
fn placeholders_past_nine() {
    let mut fs = Vec::new();
    for i in 0..10 {
        fs.push(Filter::new(&format!("c{}", i), Match::Exact, &Some(format!("{}", i))));
    }
    fs.push(Filter::new("skipped", Match::Contains, &None));
    let st = count_statement("t", &fs);
    assert!(st.sql.ends_with(" AND c8 = $9 AND c9 = $10"));
    assert_eq!(st.texts.len(), 10);
    let page = select_statement("t", &fs, &None, None, &vec![], Some(1), Some(3)).unwrap();
    assert!(page.sql.ends_with(" AND c9 = $10 LIMIT $11 OFFSET $12"));
    assert_eq!(page.ints, vec![3, 0]);
}
