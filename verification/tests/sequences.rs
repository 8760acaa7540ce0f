use book_catalog::aggregate::{Relations, SequenceEntry};
use book_catalog::book::BookRecord;
use book_catalog::error::CatalogError;
use book_catalog::pagination::Pagination;
use book_catalog::sequence::{sort_by_position, Sequence, SequenceBook};
use book_catalog::sequences::{get_sequence, get_sequence_available_types, get_sequence_books, search_sequence};
use book_catalog::source::Source;
use chrono::NaiveDate;

fn entry(id: i32, title: &str, position: i32) -> SequenceEntry {
    SequenceEntry {
        book: BookRecord {
            id,
            title: title.to_string(),
            lang: "ru".to_string(),
            file_type: "epub".to_string(),
            year: 2001,
            uploaded: NaiveDate::from_ymd_opt(2019, 1, 1).unwrap(),
            is_deleted: false,
            pages: None,
            source: Source { id: 1, name: "other".to_string() },
            remote_id: id,
        },
        position,
    }
}

fn no_relations() -> Relations {
    Relations {
        authors: Vec::new(),
        translators: Vec::new(),
        sequences: Vec::new(),
        genres: Vec::new(),
        annotated: Vec::new(),
    }
}

fn book(id: i32, title: &str, position: i32) -> SequenceBook {
    SequenceBook {
        id,
        title: title.to_string(),
        lang: "ru".to_string(),
        file_type: "epub".to_string(),
        year: 2001,
        available_types: vec!["epub".to_string()],
        uploaded: NaiveDate::from_ymd_opt(2019, 1, 1).unwrap(),
        authors: Vec::new(),
        translators: Vec::new(),
        annotation_exists: false,
        position,
    }
}

fn titles(books: &Vec<SequenceBook>) -> Vec<String> {
    books.iter().map(|b| b.title.clone()).collect()
}

#[test]
fn books_of_a_sequence_come_by_position() {
    let sequence = Sequence { id: 1, name: "Saga".to_string() };
    let page = get_sequence_books(
        Some(sequence),
        vec![entry(1, "A", 3), entry(2, "B", 1), entry(3, "C", 2)],
        &no_relations(),
        3,
        &Pagination { page: 1, size: 50 },
    )
    .unwrap();
    assert_eq!(titles(&page.items), vec!["B", "C", "A"]);
    assert_eq!(page.items[0].position, 1);
    assert_eq!(page.items[2].position, 3);
    assert_eq!(page.parent_item, Sequence { id: 1, name: "Saga".to_string() });
    assert_eq!(page.total, 3);
    assert_eq!(page.pages, 1);
}

#[test]
fn order_of_the_fetch_does_not_matter() {
    for entries in [
        vec![entry(2, "B", 1), entry(3, "C", 2), entry(1, "A", 3)],
        vec![entry(1, "A", 3), entry(3, "C", 2), entry(2, "B", 1)],
        vec![entry(3, "C", 2), entry(1, "A", 3), entry(2, "B", 1)],
    ] {
        let page = get_sequence_books(
            Some(Sequence { id: 1, name: "Saga".to_string() }),
            entries,
            &no_relations(),
            3,
            &Pagination { page: 1, size: 50 },
        )
        .unwrap();
        assert_eq!(titles(&page.items), vec!["B", "C", "A"]);
    }
}

#[test]
fn missing_sequence_is_not_found() {
    let page = get_sequence_books(None, vec![entry(1, "A", 3)], &no_relations(), 1, &Pagination { page: 1, size: 50 });
    assert_eq!(page.err(), Some(CatalogError::NotFound));
    assert_eq!(get_sequence(None), Err(CatalogError::NotFound));
    assert_eq!(
        get_sequence(Some(Sequence { id: 2, name: "x".to_string() })),
        Ok(Sequence { id: 2, name: "x".to_string() })
    );
}

#[test]
fn equal_positions_keep_their_order() {
    let sorted = sort_by_position(vec![
        book(1, "first", 2),
        book(2, "low", 1),
        book(3, "second", 2),
        book(4, "third", 2),
        book(5, "neg", -4),
    ]);
    assert_eq!(titles(&sorted), vec!["neg", "low", "first", "second", "third"]);
}

#[test]
fn sorting_keeps_every_book() {
    let sorted = sort_by_position(vec![book(1, "a", 5), book(2, "b", 4), book(3, "c", 3), book(4, "d", 2), book(5, "e", 1)]);
    assert_eq!(sorted.iter().map(|b| b.id).collect::<Vec<i32>>(), vec![5, 4, 3, 2, 1]);
    assert_eq!(sort_by_position(Vec::new()), Vec::<SequenceBook>::new());
    assert_eq!(sort_by_position(vec![book(1, "a", 5)]), vec![book(1, "a", 5)]);
    let sorted = sort_by_position(vec![book(1, "a", i32::MAX), book(2, "b", i32::MIN)]);
    assert_eq!(sorted.iter().map(|b| b.id).collect::<Vec<i32>>(), vec![2, 1]);
}

#[test]
fn search_for_sequences_follows_rank() {
    let page = search_sequence(
        &vec![7, 3, 9],
        3,
        vec![
            Sequence { id: 3, name: "c".to_string() },
            Sequence { id: 9, name: "n".to_string() },
            Sequence { id: 7, name: "s".to_string() },
        ],
        &Pagination { page: 1, size: 50 },
    );
    assert_eq!(page.items.iter().map(|s| s.id).collect::<Vec<i32>>(), vec![7, 3, 9]);
    assert_eq!(page.total, 3);
}

#[test]
fn formats_of_a_sequence() {
    let books = vec![
        book_catalog::book::BaseBook { id: 1, available_types: vec!["fb2".to_string()] },
        book_catalog::book::BaseBook { id: 2, available_types: vec!["pdf".to_string()] },
    ];
    assert_eq!(get_sequence_available_types(&books), vec!["fb2", "pdf", "epub", "mobi", "fb2zip"]);
}
