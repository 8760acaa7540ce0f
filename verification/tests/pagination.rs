use book_catalog::pagination::{count_pages, default_page, default_size, Page, PageWithParent, Pagination};

#[test]
fn defaults_are_first_page_of_fifty() {
    assert_eq!(default_page(), 1);
    assert_eq!(default_size(), 50);
    let p = Pagination::new();
    assert_eq!(p.page, 1);
    assert_eq!(p.size, 50);
}

#[test]
fn empty_result_set_has_no_pages() {
    let page: Page<i32> = Page::new(Vec::new(), 0, &Pagination { page: 1, size: 50 });
    assert!(page.items.is_empty());
    assert_eq!(page.pages, 0);
    assert_eq!(page.total, 0);
    assert_eq!(page.page, 1);
    assert_eq!(page.size, 50);
}

#[test]
fn page_count_is_the_ceiling() {
    assert_eq!(count_pages(0, 50), 0);
    assert_eq!(count_pages(1, 50), 1);
    assert_eq!(count_pages(50, 50), 1);
    assert_eq!(count_pages(51, 50), 2);
    assert_eq!(count_pages(100, 50), 2);
    assert_eq!(count_pages(101, 50), 3);
    assert_eq!(count_pages(7, 1), 7);
    assert_eq!(count_pages(i64::MAX, 1), i64::MAX);
    assert_eq!(count_pages(i64::MAX, i64::MAX), 1);
    assert_eq!(count_pages(i64::MAX, 2), i64::MAX / 2 + 1);
}

#[test]
fn page_keeps_items_and_request() {
    let page = Page::new(vec![10, 20, 30], 103, &Pagination { page: 4, size: 3 });
    assert_eq!(page.items, vec![10, 20, 30]);
    assert_eq!(page.total, 103);
    assert_eq!(page.page, 4);
    assert_eq!(page.size, 3);
    assert_eq!(page.pages, 35);
}

#[test]
fn page_with_parent_threads_parent_through() {
    let page = PageWithParent::new("parent", vec![1u8, 2], 5, &Pagination { page: 2, size: 2 });
    assert_eq!(page.parent_item, "parent");
    assert_eq!(page.items, vec![1u8, 2]);
    assert_eq!(page.total, 5);
    assert_eq!(page.page, 2);
    assert_eq!(page.size, 2);
    assert_eq!(page.pages, 3);
}

#[test]
fn offset_and_window() {
    assert_eq!(Pagination { page: 1, size: 50 }.offset(), Some(0));
    assert_eq!(Pagination { page: 3, size: 20 }.offset(), Some(40));
    assert_eq!(Pagination { page: 0, size: 20 }.offset(), None);
    assert_eq!(Pagination { page: 1, size: 0 }.offset(), None);
    assert_eq!(Pagination { page: -1, size: 5 }.offset(), None);
    assert_eq!(Pagination { page: i64::MAX, size: i64::MAX }.offset(), None);
    assert_eq!(Pagination { page: 3, size: 20 }.window(), Some((40, 20)));
    assert_eq!(Pagination { page: 1, size: 50 }.window(), Some((0, 50)));
    assert_eq!(Pagination { page: 0, size: 50 }.window(), None);
    assert!(Pagination { page: 1, size: 1 }.is_valid());
    assert!(!Pagination { page: 1, size: 0 }.is_valid());
    assert!(!Pagination { page: 0, size: 1 }.is_valid());
}
