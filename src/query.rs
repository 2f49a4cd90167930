//! The paged query builder shared by every list endpoint: a sparse set of
//! filters becomes one predicate, used alike by a `COUNT` statement and by a
//! `SELECT` statement with an allow-listed order and a `LIMIT`/`OFFSET` pair.
//! Values are never written into the SQL text: each one is bound to a
//! numbered placeholder.

use vstd::prelude::*;
use crate::pagination::{
    offset_of, page_offset, page_window, requested_limit, requested_page, window_error, PageError,
};
use crate::text::{append_decimal, decimal, opt_view, views};

verus! {

/// How a filter compares its column with the value given.
#[derive(Debug, Clone, Copy, PartialEq, Eq, Structural)]
pub enum Match {
    /// `column = value`, for identifiers and foreign keys.
    Exact,
    /// `column LIKE %value%`: case-sensitive substring match, for text.
    Contains,
}

/// One filterable column of a resource, with the value asked for, if any.
pub struct Filter {
    pub column: String,
    pub kind: Match,
    pub value: Option<String>,
}

/// A filter as plain values: column, comparison, value asked for.
pub type FilterView = (Seq<char>, Match, Option<Seq<char>>);

impl View for Filter {
    type V = FilterView;

    open spec fn view(&self) -> FilterView {
        (self.column@, self.kind, opt_view(self.value))
    }
}

/// The views of a sequence of filters.
pub open spec fn filter_views(fs: Seq<Filter>) -> Seq<FilterView> {
    fs.map_values(|f: Filter| f@)
}

impl Filter {
    /// A filter on `column`; it takes part in a query only when `value` is present.
    pub fn new(column: &str, kind: Match, value: &Option<String>) -> (r: Filter)
        ensures
            r@ == (column@, kind, opt_view(*value)),
    {
        let value = match value {
            Some(v) => Some(v.clone()),
            None => None,
        };
        Filter { column: String::from_str(column), kind, value }
    }
}

/// A statement for the store: SQL text whose placeholders `$1, $2, ...` take
/// first the text parameters, in order, then the integer parameters.
pub struct Statement {
    pub sql: String,
    pub texts: Vec<String>,
    pub ints: Vec<i64>,
}

/// The filters that carry a value, in their order.
pub open spec fn active(fs: Seq<FilterView>) -> Seq<FilterView>
    decreases fs.len(),
{
    if fs.len() == 0 {
        Seq::empty()
    } else {
        let rest = active(fs.drop_last());
        if fs.last().2 is Some {
            rest.push(fs.last())
        } else {
            rest
        }
    }
}

/// The comparison that a filter writes before its placeholder number.
pub open spec fn operator(kind: Match) -> Seq<char> {
    match kind {
        Match::Exact => " = $"@,
        Match::Contains => " LIKE $"@,
    }
}

/// The condition of the `k`-th active filter.
pub open spec fn condition(f: FilterView, k: nat) -> Seq<char> {
    " AND "@ + f.0 + operator(f.1) + decimal(k)
}

/// The conditions of the active filters `act`, numbered from 1.
pub open spec fn conditions(act: Seq<FilterView>) -> Seq<char>
    decreases act.len(),
{
    if act.len() == 0 {
        Seq::empty()
    } else {
        conditions(act.drop_last()) + condition(act.last(), act.len())
    }
}

/// The value bound for an active filter: as given for `Exact`, wrapped in
/// `%` wildcards for `Contains`.
pub open spec fn bound_text(f: FilterView) -> Seq<char> {
    match f.2 {
        Some(v) => match f.1 {
            Match::Exact => v,
            Match::Contains => "%"@ + v + "%"@,
        },
        None => Seq::empty(),
    }
}

/// The values bound for the active filters `act`, in placeholder order.
pub open spec fn bound_texts(act: Seq<FilterView>) -> Seq<Seq<char>> {
    act.map_values(|f: FilterView| bound_text(f))
}

/// The predicate of a listing: always true, then one condition per active filter.
pub open spec fn predicate_sql(fs: Seq<FilterView>) -> Seq<char> {
    " WHERE 1=1"@ + conditions(active(fs))
}

/// The statement that counts the rows of `table` that the filters select.
pub open spec fn count_sql(table: Seq<char>, fs: Seq<FilterView>) -> Seq<char> {
    "SELECT COUNT(*) total FROM "@ + table + predicate_sql(fs)
}

/// The sort direction asked for, ascending by default.
pub open spec fn ascending(asc: Option<bool>) -> bool {
    match asc {
        Some(b) => b,
        None => true,
    }
}

/// The column to sort by: the one asked for if it is on the allow-list,
/// else none (the store's own order).
pub open spec fn sort_column(sort_by: Option<String>, allowed: Seq<Seq<char>>) -> Option<Seq<char>> {
    match sort_by {
        Some(c) => if allowed.contains(c@) { Some(c@) } else { None },
        None => None,
    }
}

/// The `ORDER BY` clause, if a column is to sort by.
pub open spec fn order_sql(sort: Option<Seq<char>>, asc: bool) -> Seq<char> {
    match sort {
        Some(c) => " ORDER BY "@ + c + if asc { " ASC"@ } else { " DESC"@ },
        None => Seq::empty(),
    }
}

/// The `LIMIT` and `OFFSET` placeholders after `m` filter placeholders.
pub open spec fn limit_sql(m: nat) -> Seq<char> {
    " LIMIT $"@ + decimal(m + 1) + " OFFSET $"@ + decimal(m + 2)
}

/// The statement that reads one page of the rows of `table` that the filters select.
pub open spec fn select_sql(table: Seq<char>, fs: Seq<FilterView>, sort: Option<Seq<char>>, asc: bool) -> Seq<char> {
    "SELECT * FROM "@ + table + predicate_sql(fs) + order_sql(sort, asc) + limit_sql(active(fs).len())
}

/// `r` is the count statement for `table` under the filters `fs`.
pub open spec fn is_count(r: Statement, table: Seq<char>, fs: Seq<FilterView>) -> bool {
    &&& r.sql@ == count_sql(table, fs)
    &&& views(r.texts@) == bound_texts(active(fs))
    &&& r.ints@.len() == 0
}

/// `r` is the page statement for `table` under the filters `fs`, sorted by
/// `sort` in the direction `asc`, for the page and size a request asks for;
/// or the error that refuses them.
pub open spec fn is_select(
    r: Result<Statement, PageError>,
    table: Seq<char>,
    fs: Seq<FilterView>,
    sort: Option<Seq<char>>,
    asc: bool,
    page: Option<u32>,
    limit: Option<u32>,
) -> bool {
    let (p, l) = (requested_page(page), requested_limit(limit));
    match r {
        Ok(st) => {
            &&& window_error(p, l) is None
            &&& st.sql@ == select_sql(table, fs, sort, asc)
            &&& views(st.texts@) == bound_texts(active(fs))
            &&& st.ints@ == seq![l as i64, page_offset(p, l) as i64]
        },
        Err(e) => window_error(p, l) == Some(e),
    }
}

/// A count statement and a page statement built for the same table and
/// filters carry the same predicate text and bind the same filter values
/// to the same placeholders, so the count is the number of rows that the
/// pages, read one after the other, return.
pub proof fn count_and_page_share_predicate(
    count: Statement,
    page_stmt: Statement,
    table: Seq<char>,
    fs: Seq<FilterView>,
    sort: Option<Seq<char>>,
    asc: bool,
    page: Option<u32>,
    limit: Option<u32>,
)
    requires
        is_count(count, table, fs),
        is_select(Ok(page_stmt), table, fs, sort, asc, page, limit),
    ensures
        count.sql@ == "SELECT COUNT(*) total FROM "@ + table + predicate_sql(fs),
        page_stmt.sql@ == "SELECT * FROM "@ + table + predicate_sql(fs) + order_sql(sort, asc)
            + limit_sql(active(fs).len()),
        views(count.texts@) == views(page_stmt.texts@),
{
}

proof fn lemma_active_len(fs: Seq<FilterView>)
    ensures
        active(fs).len() <= fs.len(),
    decreases fs.len(),
{
    if fs.len() > 0 {
        lemma_active_len(fs.drop_last());
    }
}

/// The predicate of the filters `fs` and the values bound to its placeholders.
pub fn where_clause(fs: &Vec<Filter>) -> (r: (String, Vec<String>))
    requires
        fs.len() < u64::MAX,
    ensures
        r.0@ == predicate_sql(filter_views(fs@)),
        views(r.1@) == bound_texts(active(filter_views(fs@))),
{
    let mut sql = String::from_str(" WHERE 1=1");
    let mut texts: Vec<String> = Vec::new();
    let mut j: usize = 0;
    while j < fs.len()
        invariant
            fs.len() < u64::MAX,
            j <= fs.len(),
            texts.len() == active(filter_views(fs@.take(j as int))).len(),
            texts.len() <= j,
            sql@ == " WHERE 1=1"@ + conditions(active(filter_views(fs@.take(j as int)))),
            views(texts@) == bound_texts(active(filter_views(fs@.take(j as int)))),
        decreases fs.len() - j,
    {
        let f = &fs[j];
        let ghost before = filter_views(fs@.take(j as int));
        assert(filter_views(fs@.take(j + 1)).drop_last() =~= before);
        assert(filter_views(fs@.take(j + 1)).last() == fs@[j as int]@);
        match &f.value {
            Some(v) => {
                let k = texts.len() as u64 + 1;
                sql.append(" AND ");
                sql.append(f.column.as_str());
                match f.kind {
                    Match::Exact => sql.append(" = $"),
                    Match::Contains => sql.append(" LIKE $"),
                }
                append_decimal(&mut sql, k);
                let t = match f.kind {
                    Match::Exact => v.clone(),
                    Match::Contains => {
                        let mut w = String::from_str("%");
                        w.append(v.as_str());
                        w.append("%");
                        w
                    },
                };
                let ghost act = active(filter_views(fs@.take(j + 1)));
                assert(act == active(before).push(f@));
                assert(act.drop_last() =~= active(before));
                assert(sql@ =~= " WHERE 1=1"@ + conditions(act));
                assert(t@ == bound_text(f@));
                let ghost old_texts = texts@;
                texts.push(t);
                assert(texts@ == old_texts.push(t));
                assert(views(texts@) =~= views(old_texts).push(t@));
                assert(bound_texts(act) =~= bound_texts(active(before)).push(bound_text(f@)));
            },
            None => {
                assert(active(filter_views(fs@.take(j + 1))) == active(before));
            },
        }
        j = j + 1;
    }
    assert(fs@.take(fs.len() as int) =~= fs@);
    (sql, texts)
}

/// The column to sort by, checked against the allow-list `allowed`.
pub fn checked_sort_column(sort_by: &Option<String>, allowed: &Vec<String>) -> (r: Option<String>)
    ensures
        match r {
            Some(c) => sort_column(*sort_by, views(allowed@)) == Some(c@),
            None => sort_column(*sort_by, views(allowed@)) is None,
        },
{
    match sort_by {
        None => None,
        Some(c) => {
            let mut i: usize = 0;
            while i < allowed.len()
                invariant
                    *sort_by == Some(*c),
                    i <= allowed.len(),
                    forall|k: int| 0 <= k < i ==> allowed@[k]@ != c@,
                decreases allowed.len() - i,
            {
                if allowed[i] == *c {
                    assert(views(allowed@)[i as int] == c@);
                    assert(views(allowed@).contains(c@));
                    let r = c.clone();
                    assert(r@ == c@);
                    return Some(r);
                }
                i = i + 1;
            }
            assert(!views(allowed@).contains(c@));
            None
        },
    }
}

/// The statement that counts the rows of `table` selected by `fs`.
pub fn count_statement(table: &str, fs: &Vec<Filter>) -> (r: Statement)
    requires
        fs.len() < u64::MAX,
    ensures
        is_count(r, table@, filter_views(fs@)),
{
    let (clause, texts) = where_clause(fs);
    let mut sql = String::from_str("SELECT COUNT(*) total FROM ");
    sql.append(table);
    sql.append(clause.as_str());
    Statement { sql, texts, ints: Vec::new() }
}

/// The statement that reads page `page` (1 by default) of `limit` rows
/// (10 by default) of `table` selected by `fs`, sorted by `sort_by` when the
/// allow-list `allowed` holds it, ascending unless `asc` says otherwise.
pub fn select_statement(
    table: &str,
    fs: &Vec<Filter>,
    sort_by: &Option<String>,
    asc: Option<bool>,
    allowed: &Vec<String>,
    page: Option<u32>,
    limit: Option<u32>,
) -> (r: Result<Statement, PageError>)
    requires
        fs.len() + 2 < u64::MAX,
    ensures
        is_select(r, table@, filter_views(fs@), sort_column(*sort_by, views(allowed@)), ascending(asc), page, limit),
{
    let (p, l) = match page_window(page, limit) {
        Ok(w) => w,
        Err(e) => {
            return Err(e);
        },
    };
    let (clause, texts) = where_clause(fs);
    proof { lemma_active_len(filter_views(fs@)); }
    let mut sql = String::from_str("SELECT * FROM ");
    sql.append(table);
    sql.append(clause.as_str());
    let sort = checked_sort_column(sort_by, allowed);
    let ghost order = order_sql(sort_column(*sort_by, views(allowed@)), ascending(asc));
    let ghost before = sql@;
    match sort {
        Some(c) => {
            sql.append(" ORDER BY ");
            sql.append(c.as_str());
            let up = match asc {
                Some(b) => b,
                None => true,
            };
            if up {
                sql.append(" ASC");
            } else {
                sql.append(" DESC");
            }
        },
        None => {},
    }
    assert(sql@ =~= before + order);
    assert(views(texts@).len() == texts@.len());
    let m = texts.len() as u64;
    sql.append(" LIMIT $");
    append_decimal(&mut sql, m + 1);
    sql.append(" OFFSET $");
    append_decimal(&mut sql, m + 2);
    let offset = offset_of(p, l);
    let mut ints: Vec<i64> = Vec::new();
    ints.push(l as i64);
    ints.push(offset);
    assert(ints@ =~= seq![l as i64, page_offset(p as nat, l as nat) as i64]);
    assert(sql@ =~= select_sql(table@, filter_views(fs@), sort_column(*sort_by, views(allowed@)), ascending(asc)));
    Ok(Statement { sql, texts, ints })
}

} // verus!
