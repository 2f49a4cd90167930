//! Pagination shared by every list endpoint: page and page size defaults,
//! the page count, the links to neighbouring pages, and what a page holds.

use vstd::prelude::*;
use crate::text::{append_decimal, decimal, opt_view};

verus! {

/// The page shown when the request names none.
pub const DEFAULT_PAGE: u32 = 1;

/// The page size used when the request names none.
pub const DEFAULT_LIMIT: u32 = 10;

/// Why a page request is refused.
#[derive(Debug, Clone, Copy, PartialEq, Eq, Structural)]
pub enum PageError {
    /// Pages are numbered from 1.
    PageBelowOne,
    /// A page holds at least one row.
    ZeroLimit,
    /// The rows before the page are more than a signed 64-bit offset holds.
    OffsetOutOfRange,
}

/// The page that a request asks for.
pub open spec fn requested_page(page: Option<u32>) -> nat {
    match page {
        Some(p) => p as nat,
        None => DEFAULT_PAGE as nat,
    }
}

/// The page size that a request asks for.
pub open spec fn requested_limit(limit: Option<u32>) -> nat {
    match limit {
        Some(l) => l as nat,
        None => DEFAULT_LIMIT as nat,
    }
}

/// The error, if any, for a request of page `page` with `limit` rows.
pub open spec fn window_error(page: nat, limit: nat) -> Option<PageError> {
    if page < 1 {
        Some(PageError::PageBelowOne)
    } else if limit < 1 {
        Some(PageError::ZeroLimit)
    } else if page_offset(page, limit) > i64::MAX {
        Some(PageError::OffsetOutOfRange)
    } else {
        None
    }
}

/// Number of pages of `limit` rows that `records` rows fill: the ceiling of
/// `records / limit`.
pub open spec fn total_pages(records: nat, limit: nat) -> nat {
    if limit == 0 {
        0
    } else if records % limit == 0 {
        records / limit
    } else {
        records / limit + 1
    }
}

/// Number of rows that come before page `page`.
pub open spec fn page_offset(page: nat, limit: nat) -> nat {
    if page == 0 { 0 } else { ((page - 1) * limit) as nat }
}

/// The link to page `page` of a listing.
pub open spec fn page_link(page: nat, limit: nat) -> Seq<char> {
    "/records?page="@ + decimal(page) + "&limit="@ + decimal(limit)
}

/// The link to the previous page: present exactly when `page > 1`.
pub open spec fn prev_link(page: nat, limit: nat) -> Option<Seq<char>> {
    if page > 1 {
        Some(page_link((page - 1) as nat, limit))
    } else {
        None
    }
}

/// The link to the next page: present exactly when `page < pages`.
pub open spec fn next_link(page: nat, limit: nat, pages: nat) -> Option<Seq<char>> {
    if page < pages {
        Some(page_link(page + 1, limit))
    } else {
        None
    }
}

/// The page and page size of a request, with their defaults, checked.
pub fn page_window(page: Option<u32>, limit: Option<u32>) -> (r: Result<(u32, u32), PageError>)
    ensures
        match r {
            Ok((p, l)) => {
                &&& window_error(requested_page(page), requested_limit(limit)) is None
                &&& p == requested_page(page)
                &&& l == requested_limit(limit)
            },
            Err(e) => window_error(requested_page(page), requested_limit(limit)) == Some(e),
        },
{
    let p = match page {
        Some(p) => p,
        None => DEFAULT_PAGE,
    };
    let l = match limit {
        Some(l) => l,
        None => DEFAULT_LIMIT,
    };
    if p < 1 {
        Err(PageError::PageBelowOne)
    } else if l < 1 {
        Err(PageError::ZeroLimit)
    } else if offset_u64(p, l) > i64::MAX as u64 {
        Err(PageError::OffsetOutOfRange)
    } else {
        Ok((p, l))
    }
}

fn offset_u64(page: u32, limit: u32) -> (r: u64)
    requires
        page >= 1,
    ensures
        r == page_offset(page as nat, limit as nat),
{
    let before = (page - 1) as u64;
    assert(before * (limit as u64) <= 0xffff_ffffu64 * 0xffff_ffffu64) by (nonlinear_arith)
        requires
            before <= 0xffff_ffff,
            limit <= 0xffff_ffff,
    ;
    before * (limit as u64)
}

/// Number of rows before page `page`: `(page - 1) * limit`.
pub fn offset_of(page: u32, limit: u32) -> (r: i64)
    requires
        window_error(page as nat, limit as nat) is None,
    ensures
        r == page_offset(page as nat, limit as nat),
{
    offset_u64(page, limit) as i64
}

/// Number of pages of `limit` rows that `records` rows fill.
pub fn page_count(records: u64, limit: u32) -> (r: u64)
    requires
        limit >= 1,
    ensures
        r == total_pages(records as nat, limit as nat),
{
    let l = limit as u64;
    if records % l == 0 {
        records / l
    } else {
        assert(records / l < records || records / l == 0) by (nonlinear_arith)
            requires l >= 1, records % l != 0,
        {
            if records / l >= records && records / l > 0 {
                assert(records / l * l <= records) by {
                    vstd::arithmetic::div_mod::lemma_fundamental_div_mod(records as int, l as int);
                };
            }
        };
        records / l + 1
    }
}

/// The link to page `page` of a listing of pages of `limit` rows.
pub fn make_page_link(page: u64, limit: u32) -> (r: String)
    ensures
        r@ == page_link(page as nat, limit as nat),
{
    let mut s = String::from_str("/records?page=");
    append_decimal(&mut s, page);
    s.append("&limit=");
    append_decimal(&mut s, limit as u64);
    s
}

/// The pagination block of a listing response.
pub struct Pagination {
    pub page: u32,
    pub limit: u32,
    pub pages: u64,
    pub records: u64,
    pub prev: Option<String>,
    pub next: Option<String>,
}

/// The pagination block for page `page` of `limit` rows over `records`
/// matching rows.
pub fn paginate(page: Option<u32>, limit: Option<u32>, records: u64) -> (r: Result<Pagination, PageError>)
    ensures
        match r {
            Ok(pg) => {
                let (p, l) = (requested_page(page), requested_limit(limit));
                &&& window_error(p, l) is None
                &&& pg.page == p
                &&& pg.limit == l
                &&& pg.records == records
                &&& pg.pages == total_pages(records as nat, l)
                &&& opt_view(pg.prev) == prev_link(p, l)
                &&& opt_view(pg.next) == next_link(p, l, pg.pages as nat)
            },
            Err(e) => window_error(requested_page(page), requested_limit(limit)) == Some(e),
        },
{
    let (p, l) = match page_window(page, limit) {
        Ok(w) => w,
        Err(e) => {
            return Err(e);
        },
    };
    let pages = page_count(records, l);
    let prev = if p > 1 {
        Some(make_page_link((p - 1) as u64, l))
    } else {
        None
    };
    let next = if (p as u64) < pages {
        Some(make_page_link(p as u64 + 1, l))
    } else {
        None
    };
    Ok(Pagination { page: p, limit: l, pages, records, prev, next })
}

/// The rows that page `page` holds: what `LIMIT limit OFFSET
/// (page - 1) * limit` returns of the matching rows `rows`.
pub open spec fn page_rows<A>(rows: Seq<A>, limit: nat, page: nat) -> Seq<A> {
    let lo = page_offset(page, limit);
    let hi = lo + limit;
    let lo2 = if lo <= rows.len() { lo as int } else { rows.len() as int };
    let hi2 = if hi <= rows.len() { hi as int } else { rows.len() as int };
    rows.subrange(lo2, hi2)
}

/// The rows of pages `1..=k`, one page after the other.
pub open spec fn first_pages<A>(rows: Seq<A>, limit: nat, k: nat) -> Seq<A>
    decreases k,
{
    if k == 0 {
        Seq::empty()
    } else {
        first_pages(rows, limit, (k - 1) as nat) + page_rows(rows, limit, k)
    }
}

proof fn lemma_first_pages_prefix<A>(rows: Seq<A>, limit: nat, k: nat)
    ensures
        first_pages(rows, limit, k) == rows.subrange(
            0,
            if k * limit <= rows.len() { (k * limit) as int } else { rows.len() as int },
        ),
    decreases k,
{
    if k == 0 {
        assert(rows.subrange(0, 0) =~= Seq::<A>::empty());
    } else {
        lemma_first_pages_prefix(rows, limit, (k - 1) as nat);
        assert(((k - 1) * limit) + limit == k * limit) by (nonlinear_arith);
        assert(page_offset(k, limit) == (k - 1) * limit);
        assert((k - 1) * limit <= k * limit) by (nonlinear_arith);
        let a = if (k - 1) * limit <= rows.len() { ((k - 1) * limit) as int } else { rows.len() as int };
        let b = if k * limit <= rows.len() { (k * limit) as int } else { rows.len() as int };
        assert(rows.subrange(0, a) + rows.subrange(a, b) =~= rows.subrange(0, b));
    }
}

/// Walking pages `1..=total_pages` with a fixed page size returns every
/// matching row once, in order: as many rows as the count query reports.
pub proof fn pages_return_every_counted_row<A>(rows: Seq<A>, limit: nat)
    requires
        limit >= 1,
    ensures
        first_pages(rows, limit, total_pages(rows.len(), limit)) == rows,
        first_pages(rows, limit, total_pages(rows.len(), limit)).len() == rows.len(),
{
    let n = rows.len();
    let k = total_pages(n, limit);
    lemma_first_pages_prefix(rows, limit, k);
    vstd::arithmetic::div_mod::lemma_fundamental_div_mod(n as int, limit as int);
    assert(k * limit >= n) by (nonlinear_arith)
        requires
            n == limit * (n / limit) + n % limit,
            0 <= n % limit < limit,
            k == (if n % limit == 0 { n / limit } else { n / limit + 1 }),
    ;
    assert(rows.subrange(0, n as int) =~= rows);
}

/// An empty listing has no pages and, on its first page, no links.
pub proof fn empty_listing_has_no_links(limit: nat)
    requires
        limit >= 1,
    ensures
        total_pages(0, limit) == 0,
        prev_link(1, limit) is None,
        next_link(1, limit, total_pages(0, limit)) is None,
{
    vstd::arithmetic::div_mod::lemma_small_mod(0, limit);
    vstd::arithmetic::div_mod::lemma_basic_div(0, limit as int);
}

/// On the first of several pages only the next link is present; on the
/// last page there is no next link.
pub proof fn first_and_last_page_links(limit: nat, pages: nat)
    ensures
        pages > 1 ==> prev_link(1, limit) is None && next_link(1, limit, pages) is Some,
        next_link(pages, limit, pages) is None,
{
}

} // verus!
