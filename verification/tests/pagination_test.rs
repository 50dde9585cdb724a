use blog_api::PaginationMeta;
use blog_api::PaginationQuery;
use blog_api::default_page;
use blog_api::default_per_page;

#[test]
fn test_default_pagination() {
    assert_eq!(default_page(), 1);
    assert_eq!(default_per_page(), 10);
    let q = PaginationQuery::default();
    assert_eq!(q.page, 1);
    assert_eq!(q.per_page, 10);
}

#[test]
fn test_offset_and_limit() {
    let q = PaginationQuery { page: 3, per_page: 10 };
    assert_eq!(q.offset(), 20);
    assert_eq!(q.limit(), 10);
}

#[test]
fn test_offset_first_page() {
    let q = PaginationQuery { page: 1, per_page: 25 };
    assert_eq!(q.offset(), 0);
}

#[test]
fn test_offset_page_zero_is_clamped() {
    let q = PaginationQuery { page: 0, per_page: 10 };
    assert_eq!(q.offset(), 0);
}

#[test]
fn test_total_pages_zero_total() {
    let meta = PaginationMeta::new(0, 1, 10);
    assert_eq!(meta.total_pages, 0);
}

#[test]
fn test_total_pages_small_total() {
    let meta = PaginationMeta::new(5, 1, 10);
    assert_eq!(meta.total, 5);
    assert_eq!(meta.page, 1);
    assert_eq!(meta.per_page, 10);
    assert_eq!(meta.total_pages, 1);
}

#[test]
fn test_total_pages_even_division() {
    let meta = PaginationMeta::new(100, 1, 10);
    assert_eq!(meta.total_pages, 10);
}

#[test]
fn test_total_pages_rounds_up() {
    let meta = PaginationMeta::new(101, 1, 10);
    assert_eq!(meta.total_pages, 11);
    let meta = PaginationMeta::new(6, 3, 2);
    assert_eq!(meta.total_pages, 3);
    let meta = PaginationMeta::new(7, 1, 2);
    assert_eq!(meta.total_pages, 4);
}
