//! Books, in the shapes in which the catalog serves them.

use chrono::NaiveDate;
use crate::author::Author;
use crate::author::AuthorView;
use crate::genre::Genre;
use crate::genre::GenreView;
use crate::rank::GetId;
use crate::sequence::Sequence;
use crate::sequence::SequenceView;
use crate::source::Source;
use crate::source::SourceView;
use vstd::prelude::*;

verus! {

/// A book as the store holds one, without its related rows.
#[derive(Debug, PartialEq, Eq)]
pub struct BookRecord {
    pub id: i32,
    pub title: String,
    /// The language code.
    pub lang: String,
    /// The format in which the book is stored.
    pub file_type: String,
    /// The year of publication.
    pub year: i32,
    /// The day on which the book was uploaded.
    pub uploaded: NaiveDate,
    pub is_deleted: bool,
    /// The number of pages, where it is known.
    pub pages: Option<i32>,
    /// The source from which the book was taken.
    pub source: Source,
    /// The id that the source gives the book.
    pub remote_id: i32,
}

/// What a `BookRecord` holds.
pub struct BookRecordView {
    pub id: i32,
    pub title: Seq<char>,
    pub lang: Seq<char>,
    pub file_type: Seq<char>,
    pub year: i32,
    pub uploaded: NaiveDate,
    pub is_deleted: bool,
    pub pages: Option<i32>,
    pub source: SourceView,
    pub remote_id: i32,
}

impl View for BookRecord {
    type V = BookRecordView;

    open spec fn view(&self) -> BookRecordView {
        BookRecordView {
            id: self.id,
            title: self.title@,
            lang: self.lang@,
            file_type: self.file_type@,
            year: self.year,
            uploaded: self.uploaded,
            is_deleted: self.is_deleted,
            pages: self.pages,
            source: self.source@,
            remote_id: self.remote_id,
        }
    }
}

impl DeepView for BookRecord {
    type V = BookRecordView;

    open spec fn deep_view(&self) -> BookRecordView {
        self@
    }
}

impl GetId for BookRecord {
    open spec fn id(&self) -> i32 {
        self.id
    }

    fn get_id(&self) -> (id: i32) {
        self.id
    }
}

/// A book as it is listed with its source.
#[derive(Debug, PartialEq, Eq)]
pub struct RemoteBook {
    pub id: i32,
    pub title: String,
    /// The language code.
    pub lang: String,
    /// The format in which the book is stored.
    pub file_type: String,
    /// The year of publication.
    pub year: i32,
    /// The formats in which the book is offered.
    pub available_types: Vec<String>,
    /// The day on which the book was uploaded.
    pub uploaded: NaiveDate,
    pub authors: Vec<Author>,
    pub translators: Vec<Author>,
    pub sequences: Vec<Sequence>,
    /// Whether the store holds an annotation for this book.
    pub annotation_exists: bool,
    /// The source from which the book was taken.
    pub source: Source,
    /// The id that the source gives the book.
    pub remote_id: i32,
}

/// What a `RemoteBook` holds.
pub struct RemoteBookView {
    pub id: i32,
    pub title: Seq<char>,
    pub lang: Seq<char>,
    pub file_type: Seq<char>,
    pub year: i32,
    pub available_types: Seq<Seq<char>>,
    pub uploaded: NaiveDate,
    pub authors: Seq<AuthorView>,
    pub translators: Seq<AuthorView>,
    pub sequences: Seq<SequenceView>,
    pub annotation_exists: bool,
    pub source: SourceView,
    pub remote_id: i32,
}

impl View for RemoteBook {
    type V = RemoteBookView;

    open spec fn view(&self) -> RemoteBookView {
        RemoteBookView {
            id: self.id,
            title: self.title@,
            lang: self.lang@,
            file_type: self.file_type@,
            year: self.year,
            available_types: self.available_types.deep_view(),
            uploaded: self.uploaded,
            authors: self.authors.deep_view(),
            translators: self.translators.deep_view(),
            sequences: self.sequences.deep_view(),
            annotation_exists: self.annotation_exists,
            source: self.source@,
            remote_id: self.remote_id,
        }
    }
}

impl DeepView for RemoteBook {
    type V = RemoteBookView;

    open spec fn deep_view(&self) -> RemoteBookView {
        self@
    }
}

impl GetId for RemoteBook {
    open spec fn id(&self) -> i32 {
        self.id
    }

    fn get_id(&self) -> (id: i32) {
        self.id
    }
}

/// A book reduced to its id and the formats in which it is offered.
#[derive(Debug, PartialEq, Eq)]
pub struct BaseBook {
    pub id: i32,
    /// The formats in which the book is offered.
    pub available_types: Vec<String>,
}

/// What a `BaseBook` holds.
pub struct BaseBookView {
    pub id: i32,
    pub available_types: Seq<Seq<char>>,
}

impl View for BaseBook {
    type V = BaseBookView;

    open spec fn view(&self) -> BaseBookView {
        BaseBookView {
            id: self.id,
            available_types: self.available_types.deep_view(),
        }
    }
}

impl DeepView for BaseBook {
    type V = BaseBookView;

    open spec fn deep_view(&self) -> BaseBookView {
        self@
    }
}

impl GetId for BaseBook {
    open spec fn id(&self) -> i32 {
        self.id
    }

    fn get_id(&self) -> (id: i32) {
        self.id
    }
}

/// A book with everything the catalog knows of it.
#[derive(Debug, PartialEq, Eq)]
pub struct DetailBook {
    pub id: i32,
    pub title: String,
    /// The language code.
    pub lang: String,
    /// The format in which the book is stored.
    pub file_type: String,
    /// The year of publication.
    pub year: i32,
    /// The formats in which the book is offered.
    pub available_types: Vec<String>,
    /// The day on which the book was uploaded.
    pub uploaded: NaiveDate,
    pub authors: Vec<Author>,
    pub translators: Vec<Author>,
    pub sequences: Vec<Sequence>,
    /// Whether the store holds an annotation for this book.
    pub annotation_exists: bool,
    /// The source from which the book was taken.
    pub source: Source,
    /// The id that the source gives the book.
    pub remote_id: i32,
    pub genres: Vec<Genre>,
    pub is_deleted: bool,
    /// The number of pages, where it is known.
    pub pages: Option<i32>,
}

/// What a `DetailBook` holds.
pub struct DetailBookView {
    pub id: i32,
    pub title: Seq<char>,
    pub lang: Seq<char>,
    pub file_type: Seq<char>,
    pub year: i32,
    pub available_types: Seq<Seq<char>>,
    pub uploaded: NaiveDate,
    pub authors: Seq<AuthorView>,
    pub translators: Seq<AuthorView>,
    pub sequences: Seq<SequenceView>,
    pub annotation_exists: bool,
    pub source: SourceView,
    pub remote_id: i32,
    pub genres: Seq<GenreView>,
    pub is_deleted: bool,
    pub pages: Option<i32>,
}

impl View for DetailBook {
    type V = DetailBookView;

    open spec fn view(&self) -> DetailBookView {
        DetailBookView {
            id: self.id,
            title: self.title@,
            lang: self.lang@,
            file_type: self.file_type@,
            year: self.year,
            available_types: self.available_types.deep_view(),
            uploaded: self.uploaded,
            authors: self.authors.deep_view(),
            translators: self.translators.deep_view(),
            sequences: self.sequences.deep_view(),
            annotation_exists: self.annotation_exists,
            source: self.source@,
            remote_id: self.remote_id,
            genres: self.genres.deep_view(),
            is_deleted: self.is_deleted,
            pages: self.pages,
        }
    }
}

impl DeepView for DetailBook {
    type V = DetailBookView;

    open spec fn deep_view(&self) -> DetailBookView {
        self@
    }
}

impl GetId for DetailBook {
    open spec fn id(&self) -> i32 {
        self.id
    }

    fn get_id(&self) -> (id: i32) {
        self.id
    }
}

/// What a request asks of the book that is drawn for it.
#[derive(Debug, PartialEq, Eq)]
pub struct RandomBookFilter {
    /// The language codes that are accepted.
    pub allowed_langs: Vec<String>,
    /// The genre that the book must have.
    pub genre: Option<i32>,
}

/// What a `RandomBookFilter` holds.
pub struct RandomBookFilterView {
    pub allowed_langs: Seq<Seq<char>>,
    pub genre: Option<i32>,
}

impl View for RandomBookFilter {
    type V = RandomBookFilterView;

    open spec fn view(&self) -> RandomBookFilterView {
        RandomBookFilterView {
            allowed_langs: self.allowed_langs.deep_view(),
            genre: self.genre,
        }
    }
}

impl DeepView for RandomBookFilter {
    type V = RandomBookFilterView;

    open spec fn deep_view(&self) -> RandomBookFilterView {
        self@
    }
}

/// A book as search results list it.
#[derive(Debug, PartialEq, Eq)]
pub struct Book {
    pub id: i32,
    pub title: String,
    /// The language code.
    pub lang: String,
    /// The format in which the book is stored.
    pub file_type: String,
    /// The year of publication.
    pub year: i32,
    /// The formats in which the book is offered.
    pub available_types: Vec<String>,
    /// The day on which the book was uploaded.
    pub uploaded: NaiveDate,
    pub authors: Vec<Author>,
    pub translators: Vec<Author>,
    pub sequences: Vec<Sequence>,
    /// Whether the store holds an annotation for this book.
    pub annotation_exists: bool,
}

/// What a `Book` holds.
pub struct BookView {
    pub id: i32,
    pub title: Seq<char>,
    pub lang: Seq<char>,
    pub file_type: Seq<char>,
    pub year: i32,
    pub available_types: Seq<Seq<char>>,
    pub uploaded: NaiveDate,
    pub authors: Seq<AuthorView>,
    pub translators: Seq<AuthorView>,
    pub sequences: Seq<SequenceView>,
    pub annotation_exists: bool,
}

impl View for Book {
    type V = BookView;

    open spec fn view(&self) -> BookView {
        BookView {
            id: self.id,
            title: self.title@,
            lang: self.lang@,
            file_type: self.file_type@,
            year: self.year,
            available_types: self.available_types.deep_view(),
            uploaded: self.uploaded,
            authors: self.authors.deep_view(),
            translators: self.translators.deep_view(),
            sequences: self.sequences.deep_view(),
            annotation_exists: self.annotation_exists,
        }
    }
}

impl DeepView for Book {
    type V = BookView;

    open spec fn deep_view(&self) -> BookView {
        self@
    }
}

impl GetId for Book {
    open spec fn id(&self) -> i32 {
        self.id
    }

    fn get_id(&self) -> (id: i32) {
        self.id
    }
}

} // verus!
