use book_catalog::pagination::Pagination;
use book_catalog::rank::{order_by_rank, GetId};
use book_catalog::search::search_page;
use book_catalog::sequence::Sequence;

fn seq(id: i32, name: &str) -> Sequence {
    Sequence { id, name: name.to_string() }
}

fn ids_of(rows: &Vec<Sequence>) -> Vec<i32> {
    rows.iter().map(|r| r.get_id()).collect()
}

#[test]
fn rows_follow_the_search_rank() {
    let ids = vec![7, 3, 9];
    for rows in [
        vec![seq(3, "c"), seq(7, "s"), seq(9, "n")],
        vec![seq(9, "n"), seq(7, "s"), seq(3, "c")],
        vec![seq(7, "s"), seq(9, "n"), seq(3, "c")],
        vec![seq(9, "n"), seq(3, "c"), seq(7, "s")],
    ] {
        let ordered = order_by_rank(&ids, rows);
        assert_eq!(ordered, vec![seq(7, "s"), seq(3, "c"), seq(9, "n")]);
    }
}

#[test]
fn missing_rows_are_dropped_and_total_is_kept() {
    let ids = vec![7, 3, 9];
    let rows = vec![seq(9, "n"), seq(3, "c")];
    let page = search_page(&ids, 3, rows, &Pagination { page: 1, size: 50 });
    assert_eq!(ids_of(&page.items), vec![3, 9]);
    assert_eq!(page.total, 3);
    assert_eq!(page.pages, 1);
    assert_eq!(page.page, 1);
    assert_eq!(page.size, 50);
}

#[test]
fn rows_that_are_not_listed_are_left_out() {
    let ordered = order_by_rank(&vec![2, 1], vec![seq(1, "a"), seq(5, "x"), seq(2, "b")]);
    assert_eq!(ids_of(&ordered), vec![2, 1]);
}

#[test]
fn no_ids_give_no_rows() {
    assert_eq!(order_by_rank(&Vec::new(), vec![seq(1, "a")]), Vec::<Sequence>::new());
    assert_eq!(order_by_rank(&vec![1, 2], Vec::<Sequence>::new()), Vec::<Sequence>::new());
}

#[test]
fn an_id_listed_twice_ranks_at_its_first_mention() {
    let ordered = order_by_rank(&vec![4, 2, 4, 1], vec![seq(1, "a"), seq(2, "b"), seq(4, "d")]);
    assert_eq!(ids_of(&ordered), vec![4, 2, 1]);
}

#[test]
fn rows_of_one_id_keep_the_order_of_the_store() {
    let ordered =
        order_by_rank(&vec![2, 1], vec![seq(1, "first"), seq(2, "x"), seq(1, "second")]);
    assert_eq!(ordered, vec![seq(2, "x"), seq(1, "first"), seq(1, "second")]);
}

#[test]
fn out_of_range_page_is_empty_with_the_estimate() {
    let page = search_page(&Vec::new(), 120, Vec::<Sequence>::new(), &Pagination { page: 9, size: 50 });
    assert!(page.items.is_empty());
    assert_eq!(page.total, 120);
    assert_eq!(page.pages, 3);
    assert_eq!(page.page, 9);
}

#[test]
fn page_of_search_stays_within_the_limit() {
    let ids = vec![5, 4, 3];
    let rows = vec![seq(3, "c"), seq(4, "d"), seq(5, "e")];
    let page = search_page(&ids, 40, rows, &Pagination { page: 2, size: 3 });
    assert!(page.items.len() <= 3);
    assert_eq!(ids_of(&page.items), vec![5, 4, 3]);
    assert_eq!(page.pages, 14);
}
