use back::pagination::{paginate, page_window, offset_of, page_count, PageError};

#[test]
fn empty_listing_has_no_pages_and_no_links() {
    let pg = paginate(None, None, 0).unwrap();
    assert_eq!(pg.page, 1);
    assert_eq!(pg.limit, 10);
    assert_eq!(pg.pages, 0);
    assert_eq!(pg.records, 0);
    assert_eq!(pg.prev, None);
    assert_eq!(pg.next, None);
}

#[test]
fn first_of_several_pages_links_forward_only() {
    let pg = paginate(Some(1), Some(10), 25).unwrap();
    assert_eq!(pg.pages, 3);
    assert_eq!(pg.prev, None);
    assert_eq!(pg.next, Some("/records?page=2&limit=10".to_string()));
}

#[test]
fn last_page_links_back_only() {
    let pg = paginate(Some(3), Some(10), 25).unwrap();
    assert_eq!(pg.prev, Some("/records?page=2&limit=10".to_string()));
    assert_eq!(pg.next, None);
}

#[test]
fn middle_page_links_both_ways() {
    let pg = paginate(Some(2), Some(10), 30).unwrap();
    assert_eq!(pg.pages, 3);
    assert_eq!(pg.prev, Some("/records?page=1&limit=10".to_string()));
    assert_eq!(pg.next, Some("/records?page=3&limit=10".to_string()));
}

#[test]
fn page_count_is_ceiling() {
    assert_eq!(page_count(20, 10), 2);
    assert_eq!(page_count(21, 10), 3);
    assert_eq!(page_count(1, 10), 1);
    assert_eq!(page_count(u64::MAX, 1), u64::MAX);
    assert_eq!(page_count(u64::MAX, 2), u64::MAX / 2 + 1);
}

#[test]
fn page_below_one_is_refused() {
    assert_eq!(paginate(Some(0), Some(10), 5).err(), Some(PageError::PageBelowOne));
    assert_eq!(page_window(Some(0), None), Err(PageError::PageBelowOne));
}

#[test]
fn zero_limit_is_refused() {
    assert_eq!(paginate(Some(1), Some(0), 5).err(), Some(PageError::ZeroLimit));
}

#[test]
fn huge_offset_is_refused() {
    assert_eq!(page_window(Some(u32::MAX), Some(u32::MAX)), Err(PageError::OffsetOutOfRange));
    assert_eq!(page_window(Some(u32::MAX), Some(1)), Ok((u32::MAX, 1)));
}

#[test]
fn offsets_follow_pages() {
    assert_eq!(offset_of(1, 10), 0);
    assert_eq!(offset_of(4, 25), 75);
    assert_eq!(offset_of(u32::MAX, 1), (u32::MAX - 1) as i64);
}

#[test]
fn pages_cover_the_count() {
    // 25 matching rows, 10 per page: the pages return 10, 10 and 5 rows.
    let records: u64 = 25;
    let pg = paginate(Some(1), Some(10), records).unwrap();
    let mut seen: u64 = 0;
    for page in 1..=pg.pages as u32 {
        let offset = offset_of(page, 10) as u64;
        let on_page = std::cmp::min(10, records - offset);
        seen += on_page;
    }
    assert_eq!(seen, records);
}
