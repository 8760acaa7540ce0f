use book_catalog::aggregate::{build_books, AuthorLink, Relations};
use book_catalog::annotation::{AuthorAnnotation, BookAnnotation};
use book_catalog::author::{Author, AuthorRecord};
use book_catalog::authors::{
    get_author, get_author_annotation, get_author_books, get_author_books_available_types,
    get_authors, search_authors,
};
use book_catalog::book::{BaseBook, BookRecord};
use book_catalog::books::{
    get_base_books, get_book, get_book_annotation, get_books, get_remote_book, search_books,
};
use book_catalog::error::CatalogError;
use book_catalog::meilisearch::{AuthorMeili, BookMeili, GenreMeili, SequenceMeili};
use book_catalog::pagination::Pagination;
use book_catalog::rank::GetId;
use book_catalog::source::Source;
use book_catalog::translators::{
    get_translated_books, get_translated_books_available_types, search_translators,
};
use chrono::NaiveDate;

fn record(id: i32, file_type: &str, source_name: &str) -> BookRecord {
    BookRecord {
        id,
        title: format!("Book {}", id),
        lang: "ru".to_string(),
        file_type: file_type.to_string(),
        year: 1999,
        uploaded: NaiveDate::from_ymd_opt(2020, 5, 17).unwrap(),
        is_deleted: false,
        pages: None,
        source: Source { id: 2, name: source_name.to_string() },
        remote_id: id * 10,
    }
}

fn person(id: i32) -> AuthorRecord {
    AuthorRecord {
        id,
        first_name: "First".to_string(),
        last_name: format!("Last{}", id),
        middle_name: None,
    }
}

fn author(id: i32) -> Author {
    Author {
        id,
        first_name: "First".to_string(),
        last_name: format!("Last{}", id),
        middle_name: "".to_string(),
        annotation_exists: false,
    }
}

fn relations() -> Relations {
    Relations {
        authors: vec![AuthorLink { book: 1, author: author(10) }],
        translators: vec![AuthorLink { book: 1, author: author(11) }],
        sequences: Vec::new(),
        genres: Vec::new(),
        annotated: vec![1],
    }
}

#[test]
fn books_are_listed_with_their_source() {
    let page = get_books(
        vec![record(1, "fb2", "flibusta"), record(2, "pdf", "other")],
        &relations(),
        102,
        &Pagination { page: 1, size: 50 },
    );
    assert_eq!(page.items.len(), 2);
    assert_eq!(page.items[0].id, 1);
    assert_eq!(page.items[0].available_types, vec!["fb2", "fb2zip", "epub", "mobi"]);
    assert_eq!(page.items[0].authors, vec![author(10)]);
    assert_eq!(page.items[0].translators, vec![author(11)]);
    assert!(page.items[0].annotation_exists);
    assert_eq!(page.items[0].source, Source { id: 2, name: "flibusta".to_string() });
    assert_eq!(page.items[0].remote_id, 10);
    assert_eq!(page.items[1].id, 2);
    assert_eq!(page.items[1].available_types, vec!["pdf"]);
    assert!(!page.items[1].annotation_exists);
    assert_eq!(page.total, 102);
    assert_eq!(page.pages, 3);
}

#[test]
fn base_books_hold_id_and_formats() {
    let page = get_base_books(
        vec![record(1, "fb2", "flibusta"), record(2, "pdf", "other")],
        &relations(),
        2,
        &Pagination { page: 1, size: 1 },
    );
    assert_eq!(
        page.items,
        vec![
            BaseBook {
                id: 1,
                available_types: vec!["fb2".to_string(), "fb2zip".to_string(), "epub".to_string(), "mobi".to_string()],
            },
            BaseBook { id: 2, available_types: vec!["pdf".to_string()] },
        ]
    );
    assert_eq!(page.pages, 2);
}

#[test]
fn empty_list_of_books_has_no_pages() {
    let page = get_books(Vec::new(), &relations(), 0, &Pagination { page: 1, size: 50 });
    assert!(page.items.is_empty());
    assert_eq!(page.pages, 0);
}

#[test]
fn book_by_id_is_found_or_not() {
    let book = get_book(Some(record(1, "fb2", "flibusta")), &relations()).unwrap();
    assert_eq!(book.id, 1);
    assert_eq!(book.authors, vec![author(10)]);
    assert_eq!(get_book(None, &relations()).err(), Some(CatalogError::NotFound));
    let book = get_remote_book(Some(record(2, "fb2", "other")), &relations()).unwrap();
    assert_eq!(book.remote_id, 20);
    assert_eq!(book.available_types, vec!["fb2"]);
    assert_eq!(get_remote_book(None, &relations()).err(), Some(CatalogError::NotFound));
}

#[test]
fn annotations_are_found_or_not() {
    let annotation = BookAnnotation { id: 1, title: "t".to_string(), text: "x".to_string(), file: None };
    assert_eq!(
        get_book_annotation(Some(annotation)),
        Ok(BookAnnotation { id: 1, title: "t".to_string(), text: "x".to_string(), file: None })
    );
    assert_eq!(get_book_annotation(None), Err(CatalogError::NotFound));
    let annotation =
        AuthorAnnotation { id: 1, title: "t".to_string(), text: "x".to_string(), file: Some("f".to_string()) };
    assert_eq!(get_author_annotation(Some(annotation)).unwrap().file, Some("f".to_string()));
    assert_eq!(get_author_annotation(None), Err(CatalogError::NotFound));
}

#[test]
fn search_for_books_follows_rank_and_keeps_estimate() {
    let rows = build_books(
        vec![record(3, "pdf", "x"), record(9, "pdf", "x"), record(7, "fb2", "flibusta")],
        &relations(),
    );
    let page = search_books(&vec![7, 3, 9], 3, rows, &Pagination { page: 1, size: 50 });
    assert_eq!(page.items.iter().map(|b| b.id).collect::<Vec<i32>>(), vec![7, 3, 9]);
    let rows = build_books(vec![record(3, "pdf", "x"), record(9, "pdf", "x")], &relations());
    let page = search_books(&vec![7, 3, 9], 3, rows, &Pagination { page: 1, size: 50 });
    assert_eq!(page.items.iter().map(|b| b.id).collect::<Vec<i32>>(), vec![3, 9]);
    assert_eq!(page.total, 3);
}

#[test]
fn authors_are_listed_and_found() {
    let page = get_authors(vec![person(1), person(2)], &vec![2], 2, &Pagination { page: 1, size: 50 });
    assert_eq!(page.items.len(), 2);
    assert!(!page.items[0].annotation_exists);
    assert!(page.items[1].annotation_exists);
    assert_eq!(page.items[1].middle_name, "");
    assert_eq!(page.total, 2);
    assert_eq!(get_author(Some(person(5)), &Vec::new()), Ok(author(5)));
    assert_eq!(get_author(None, &Vec::new()), Err(CatalogError::NotFound));
}

#[test]
fn books_of_an_author_come_with_the_author() {
    let page = get_author_books(
        Some(person(10)),
        &vec![10],
        vec![record(1, "fb2", "flibusta"), record(2, "pdf", "x")],
        &relations(),
        2,
        &Pagination { page: 1, size: 50 },
    )
    .unwrap();
    assert_eq!(page.parent_item.id, 10);
    assert!(page.parent_item.annotation_exists);
    assert_eq!(page.items.len(), 2);
    assert_eq!(page.items[0].translators, vec![author(11)]);
    assert_eq!(page.items[0].available_types, vec!["fb2", "fb2zip", "epub", "mobi"]);
    assert_eq!(page.total, 2);
    assert_eq!(page.pages, 1);
    let missing =
        get_author_books(None, &Vec::new(), vec![record(1, "fb2", "x")], &relations(), 1, &Pagination { page: 1, size: 50 });
    assert_eq!(missing.err(), Some(CatalogError::NotFound));
}

#[test]
fn books_of_a_translator_come_with_the_translator() {
    let page = get_translated_books(
        Some(person(11)),
        &Vec::new(),
        vec![record(1, "fb2", "flibusta")],
        &relations(),
        1,
        &Pagination { page: 1, size: 50 },
    )
    .unwrap();
    assert_eq!(page.parent_item, author(11));
    assert_eq!(page.items[0].authors, vec![author(10)]);
    let missing =
        get_translated_books(None, &Vec::new(), Vec::new(), &relations(), 0, &Pagination { page: 1, size: 50 });
    assert_eq!(missing.err(), Some(CatalogError::NotFound));
}

#[test]
fn formats_of_an_author_and_a_translator() {
    let books = vec![
        BaseBook { id: 1, available_types: vec!["epub".to_string()] },
        BaseBook { id: 2, available_types: vec!["fb2".to_string()] },
    ];
    assert_eq!(get_author_books_available_types(&books), vec!["epub", "fb2", "mobi", "fb2zip"]);
    assert_eq!(get_translated_books_available_types(&books), vec!["epub", "fb2", "mobi", "fb2zip"]);
}

#[test]
fn search_for_authors_and_translators_follows_rank() {
    let page = search_authors(&vec![2, 1], 2, vec![author(1), author(2)], &Pagination { page: 1, size: 50 });
    assert_eq!(page.items, vec![author(2), author(1)]);
    let page = search_translators(&vec![2, 1, 3], 9, vec![author(3), author(2)], &Pagination { page: 1, size: 3 });
    assert_eq!(page.items, vec![author(2), author(3)]);
    assert_eq!(page.total, 9);
    assert_eq!(page.pages, 3);
}

#[test]
fn documents_of_the_index_give_their_ids() {
    let a = AuthorMeili {
        id: 4,
        first_name: "a".to_string(),
        last_name: "b".to_string(),
        middle_name: "c".to_string(),
        author_langs: vec!["ru".to_string()],
        translator_langs: Vec::new(),
        books_count: 3,
    };
    assert_eq!(a.get_id(), 4);
    let b = BookMeili { id: 5, title: "t".to_string(), lang: "ru".to_string(), genres: vec![1, 2] };
    assert_eq!(b.get_id(), 5);
    let g = GenreMeili {
        id: 6,
        description: "d".to_string(),
        meta: "m".to_string(),
        langs: Vec::new(),
        books_count: 0,
    };
    assert_eq!(g.get_id(), 6);
    let s = SequenceMeili { id: -7, name: "n".to_string(), langs: Vec::new(), books_count: 1 };
    assert_eq!(s.get_id(), -7);
    assert_eq!(author(9).get_id(), 9);
    assert_eq!(record(12, "fb2", "x").get_id(), 12);
}
