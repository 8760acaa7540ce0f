use book_catalog::aggregate::{
    authors_of, build_author, build_authors, build_base_books, build_books, build_detail_book,
    build_remote_books, genres_of, mentions, reversed, sequences_of, AuthorLink, GenreLink,
    Relations, SequenceLink,
};
use book_catalog::author::{Author, AuthorRecord};
use book_catalog::book::BookRecord;
use book_catalog::genre::Genre;
use book_catalog::sequence::Sequence;
use book_catalog::source::Source;
use chrono::NaiveDate;

fn author(id: i32, last: &str) -> Author {
    Author {
        id,
        first_name: "F".to_string(),
        last_name: last.to_string(),
        middle_name: "".to_string(),
        annotation_exists: id % 2 == 0,
    }
}

fn source(id: i32, name: &str) -> Source {
    Source { id, name: name.to_string() }
}

fn genre(id: i32, meta: &str) -> Genre {
    Genre {
        id,
        source: source(1, "flibusta"),
        remote_id: id + 100,
        code: format!("g{}", id),
        description: "d".to_string(),
        meta: meta.to_string(),
    }
}

fn record(id: i32, file_type: &str, source_name: &str) -> BookRecord {
    BookRecord {
        id,
        title: format!("Book {}", id),
        lang: "ru".to_string(),
        file_type: file_type.to_string(),
        year: 1999,
        uploaded: NaiveDate::from_ymd_opt(2020, 5, 17).unwrap(),
        is_deleted: false,
        pages: Some(300),
        source: source(2, source_name),
        remote_id: id * 10,
    }
}

fn relations() -> Relations {
    Relations {
        authors: vec![
            AuthorLink { book: 1, author: author(10, "A") },
            AuthorLink { book: 2, author: author(11, "B") },
            AuthorLink { book: 1, author: author(12, "C") },
        ],
        translators: vec![AuthorLink { book: 2, author: author(13, "T") }],
        sequences: vec![
            SequenceLink { book: 1, sequence: Sequence { id: 5, name: "S".to_string() }, position: 2 },
            SequenceLink { book: 3, sequence: Sequence { id: 6, name: "R".to_string() }, position: 1 },
        ],
        genres: vec![
            GenreLink { book: 2, genre: genre(20, "prose") },
            GenreLink { book: 1, genre: genre(21, "poetry") },
            GenreLink { book: 1, genre: genre(22, "prose") },
        ],
        annotated: vec![2, 9],
    }
}

#[test]
fn authors_are_flattened_in_fetch_order() {
    let r = relations();
    assert_eq!(authors_of(1, &r.authors), vec![author(10, "A"), author(12, "C")]);
    assert_eq!(authors_of(2, &r.authors), vec![author(11, "B")]);
    assert_eq!(authors_of(3, &r.authors), Vec::<Author>::new());
    assert_eq!(authors_of(2, &r.translators), vec![author(13, "T")]);
}

#[test]
fn sequences_and_genres_are_flattened_in_fetch_order() {
    let r = relations();
    assert_eq!(sequences_of(1, &r.sequences), vec![Sequence { id: 5, name: "S".to_string() }]);
    assert_eq!(sequences_of(2, &r.sequences), Vec::<Sequence>::new());
    assert_eq!(genres_of(1, &r.genres), vec![genre(21, "poetry"), genre(22, "prose")]);
    assert_eq!(genres_of(1, &r.genres)[0].source, source(1, "flibusta"));
}

#[test]
fn annotation_exists_when_a_row_exists() {
    assert!(mentions(&vec![2, 9], 9));
    assert!(mentions(&vec![2, 9, 9], 2));
    assert!(!mentions(&vec![2, 9], 3));
    assert!(!mentions(&Vec::new(), 3));
}

#[test]
fn missing_middle_name_reads_as_empty() {
    let built = build_author(
        AuthorRecord {
            id: 4,
            first_name: "Lev".to_string(),
            last_name: "Tolstoy".to_string(),
            middle_name: None,
        },
        &vec![4],
    );
    assert_eq!(
        built,
        Author {
            id: 4,
            first_name: "Lev".to_string(),
            last_name: "Tolstoy".to_string(),
            middle_name: "".to_string(),
            annotation_exists: true,
        }
    );
    let built = build_author(
        AuthorRecord {
            id: 5,
            first_name: "Lev".to_string(),
            last_name: "Tolstoy".to_string(),
            middle_name: Some("Nikolayevich".to_string()),
        },
        &vec![4],
    );
    assert_eq!(built.middle_name, "Nikolayevich");
    assert!(!built.annotation_exists);
}

#[test]
fn authors_are_built_one_for_one() {
    let records = vec![
        AuthorRecord { id: 1, first_name: "a".to_string(), last_name: "b".to_string(), middle_name: None },
        AuthorRecord { id: 2, first_name: "c".to_string(), last_name: "d".to_string(), middle_name: Some("m".to_string()) },
        AuthorRecord { id: 3, first_name: "e".to_string(), last_name: "f".to_string(), middle_name: None },
    ];
    let built = build_authors(records, &vec![3]);
    assert_eq!(built.len(), 3);
    assert_eq!(built[0].id, 1);
    assert_eq!(built[1].id, 2);
    assert_eq!(built[1].middle_name, "m");
    assert_eq!(built[2].id, 3);
    assert!(built[2].annotation_exists);
    assert!(!built[0].annotation_exists);
}

#[test]
fn detail_book_holds_everything() {
    let book = build_detail_book(record(1, "fb2", "flibusta"), &relations());
    assert_eq!(book.id, 1);
    assert_eq!(book.title, "Book 1");
    assert_eq!(book.lang, "ru");
    assert_eq!(book.file_type, "fb2");
    assert_eq!(book.year, 1999);
    assert_eq!(book.available_types, vec!["fb2", "fb2zip", "epub", "mobi"]);
    assert_eq!(book.uploaded, NaiveDate::from_ymd_opt(2020, 5, 17).unwrap());
    assert_eq!(book.authors, vec![author(10, "A"), author(12, "C")]);
    assert_eq!(book.translators, Vec::<Author>::new());
    assert_eq!(book.sequences, vec![Sequence { id: 5, name: "S".to_string() }]);
    assert!(!book.annotation_exists);
    assert_eq!(book.source, source(2, "flibusta"));
    assert_eq!(book.remote_id, 10);
    assert_eq!(book.genres, vec![genre(21, "poetry"), genre(22, "prose")]);
    assert!(!book.is_deleted);
    assert_eq!(book.pages, Some(300));
}

#[test]
fn detail_book_of_another_source_is_offered_as_stored() {
    let book = build_detail_book(record(2, "fb2", "other"), &relations());
    assert_eq!(book.available_types, vec!["fb2"]);
    assert!(book.annotation_exists);
    assert_eq!(book.translators, vec![author(13, "T")]);
    let book = build_detail_book(record(2, "epub", "flibusta"), &relations());
    assert_eq!(book.available_types, vec!["epub"]);
}

#[test]
fn projections_keep_the_fields_they_share() {
    let r = relations();
    let detail = build_detail_book(record(1, "fb2", "flibusta"), &r);
    let book = build_detail_book(record(1, "fb2", "flibusta"), &r).into_book();
    assert_eq!(book.id, detail.id);
    assert_eq!(book.title, detail.title);
    assert_eq!(book.available_types, detail.available_types);
    assert_eq!(book.authors, detail.authors);
    assert_eq!(book.sequences, detail.sequences);
    let remote = build_detail_book(record(1, "fb2", "flibusta"), &r).into_remote_book();
    assert_eq!(remote.source, detail.source);
    assert_eq!(remote.remote_id, 10);
    let base = build_detail_book(record(1, "fb2", "flibusta"), &r).into_base_book();
    assert_eq!(base.id, 1);
    assert_eq!(base.available_types, detail.available_types);
    let by_author = build_detail_book(record(1, "fb2", "flibusta"), &r).into_author_book();
    assert_eq!(by_author.translators, detail.translators);
    assert_eq!(by_author.sequences, detail.sequences);
    let by_translator = build_detail_book(record(1, "fb2", "flibusta"), &r).into_translator_book();
    assert_eq!(by_translator.authors, detail.authors);
    let in_sequence = build_detail_book(record(1, "fb2", "flibusta"), &r).into_sequence_book(4);
    assert_eq!(in_sequence.position, 4);
    assert_eq!(in_sequence.authors, detail.authors);
    assert_eq!(in_sequence.uploaded, detail.uploaded);
}

#[test]
fn lists_are_built_one_for_one_in_order() {
    let r = relations();
    let books = build_books(vec![record(3, "pdf", "x"), record(1, "fb2", "flibusta"), record(2, "epub", "x")], &r);
    assert_eq!(books.iter().map(|b| b.id).collect::<Vec<i32>>(), vec![3, 1, 2]);
    assert_eq!(books[1].authors.len(), 2);
    let remote = build_remote_books(vec![record(2, "epub", "x"), record(1, "fb2", "flibusta")], &r);
    assert_eq!(remote.iter().map(|b| b.id).collect::<Vec<i32>>(), vec![2, 1]);
    let base = build_base_books(vec![record(1, "fb2", "flibusta"), record(2, "epub", "x")], &r);
    assert_eq!(base[0].available_types, vec!["fb2", "fb2zip", "epub", "mobi"]);
    assert_eq!(base[1].available_types, vec!["epub"]);
    assert!(build_books(Vec::new(), &r).is_empty());
}

#[test]
fn reversed_turns_the_order() {
    assert_eq!(reversed(vec![1, 2, 3]), vec![3, 2, 1]);
    assert_eq!(reversed(Vec::<u8>::new()), Vec::<u8>::new());
    assert_eq!(reversed(vec!["a"]), vec!["a"]);
}
