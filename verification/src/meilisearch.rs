//! The documents of the search index.

use crate::rank::GetId;
use vstd::prelude::*;

verus! {

/// An author as the search index holds one.
#[derive(Debug, PartialEq, Eq)]
pub struct AuthorMeili {
    pub id: i32,
    pub first_name: String,
    pub last_name: String,
    pub middle_name: String,
    /// The languages of the books written.
    pub author_langs: Vec<String>,
    /// The languages of the books translated.
    pub translator_langs: Vec<String>,
    /// Number of books.
    pub books_count: i32,
}

/// What an `AuthorMeili` holds.
pub struct AuthorMeiliView {
    pub id: i32,
    pub first_name: Seq<char>,
    pub last_name: Seq<char>,
    pub middle_name: Seq<char>,
    pub author_langs: Seq<Seq<char>>,
    pub translator_langs: Seq<Seq<char>>,
    pub books_count: i32,
}

impl View for AuthorMeili {
    type V = AuthorMeiliView;

    open spec fn view(&self) -> AuthorMeiliView {
        AuthorMeiliView {
            id: self.id,
            first_name: self.first_name@,
            last_name: self.last_name@,
            middle_name: self.middle_name@,
            author_langs: self.author_langs.deep_view(),
            translator_langs: self.translator_langs.deep_view(),
            books_count: self.books_count,
        }
    }
}

impl DeepView for AuthorMeili {
    type V = AuthorMeiliView;

    open spec fn deep_view(&self) -> AuthorMeiliView {
        self@
    }
}

impl GetId for AuthorMeili {
    open spec fn id(&self) -> i32 {
        self.id
    }

    fn get_id(&self) -> (id: i32) {
        self.id
    }
}

/// A book as the search index holds one.
#[derive(Debug, PartialEq, Eq)]
pub struct BookMeili {
    pub id: i32,
    pub title: String,
    /// The language code.
    pub lang: String,
    /// The ids of the genres of the book.
    pub genres: Vec<i32>,
}

/// What a `BookMeili` holds.
pub struct BookMeiliView {
    pub id: i32,
    pub title: Seq<char>,
    pub lang: Seq<char>,
    pub genres: Seq<i32>,
}

impl View for BookMeili {
    type V = BookMeiliView;

    open spec fn view(&self) -> BookMeiliView {
        BookMeiliView {
            id: self.id,
            title: self.title@,
            lang: self.lang@,
            genres: self.genres@,
        }
    }
}

impl DeepView for BookMeili {
    type V = BookMeiliView;

    open spec fn deep_view(&self) -> BookMeiliView {
        self@
    }
}

impl GetId for BookMeili {
    open spec fn id(&self) -> i32 {
        self.id
    }

    fn get_id(&self) -> (id: i32) {
        self.id
    }
}

/// A genre as the search index holds one.
#[derive(Debug, PartialEq, Eq)]
pub struct GenreMeili {
    pub id: i32,
    pub description: String,
    /// The tag by which genres are grouped.
    pub meta: String,
    /// The languages of the books.
    pub langs: Vec<String>,
    /// Number of books.
    pub books_count: i32,
}

/// What a `GenreMeili` holds.
pub struct GenreMeiliView {
    pub id: i32,
    pub description: Seq<char>,
    pub meta: Seq<char>,
    pub langs: Seq<Seq<char>>,
    pub books_count: i32,
}

impl View for GenreMeili {
    type V = GenreMeiliView;

    open spec fn view(&self) -> GenreMeiliView {
        GenreMeiliView {
            id: self.id,
            description: self.description@,
            meta: self.meta@,
            langs: self.langs.deep_view(),
            books_count: self.books_count,
        }
    }
}

impl DeepView for GenreMeili {
    type V = GenreMeiliView;

    open spec fn deep_view(&self) -> GenreMeiliView {
        self@
    }
}

impl GetId for GenreMeili {
    open spec fn id(&self) -> i32 {
        self.id
    }

    fn get_id(&self) -> (id: i32) {
        self.id
    }
}

/// A sequence as the search index holds one.
#[derive(Debug, PartialEq, Eq)]
pub struct SequenceMeili {
    pub id: i32,
    pub name: String,
    /// The languages of the books.
    pub langs: Vec<String>,
    /// Number of books.
    pub books_count: i32,
}

/// What a `SequenceMeili` holds.
pub struct SequenceMeiliView {
    pub id: i32,
    pub name: Seq<char>,
    pub langs: Seq<Seq<char>>,
    pub books_count: i32,
}

impl View for SequenceMeili {
    type V = SequenceMeiliView;

    open spec fn view(&self) -> SequenceMeiliView {
        SequenceMeiliView {
            id: self.id,
            name: self.name@,
            langs: self.langs.deep_view(),
            books_count: self.books_count,
        }
    }
}

impl DeepView for SequenceMeili {
    type V = SequenceMeiliView;

    open spec fn deep_view(&self) -> SequenceMeiliView {
        self@
    }
}

impl GetId for SequenceMeili {
    open spec fn id(&self) -> i32 {
        self.id
    }

    fn get_id(&self) -> (id: i32) {
        self.id
    }
}

} // verus!
