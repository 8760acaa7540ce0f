//! Authors, who also stand for translators, and the books listed under them.

use chrono::NaiveDate;
use crate::rank::GetId;
use crate::sequence::Sequence;
use crate::sequence::SequenceView;
use vstd::prelude::*;

verus! {

/// A person who wrote or translated books.
#[derive(Debug, PartialEq, Eq)]
pub struct Author {
    pub id: i32,
    pub first_name: String,
    pub last_name: String,
    pub middle_name: String,
    /// Whether the store holds an annotation for this author.
    pub annotation_exists: bool,
}

/// What an `Author` holds.
pub struct AuthorView {
    pub id: i32,
    pub first_name: Seq<char>,
    pub last_name: Seq<char>,
    pub middle_name: Seq<char>,
    pub annotation_exists: bool,
}

impl View for Author {
    type V = AuthorView;

    open spec fn view(&self) -> AuthorView {
        AuthorView {
            id: self.id,
            first_name: self.first_name@,
            last_name: self.last_name@,
            middle_name: self.middle_name@,
            annotation_exists: self.annotation_exists,
        }
    }
}

impl DeepView for Author {
    type V = AuthorView;

    open spec fn deep_view(&self) -> AuthorView {
        self@
    }
}

impl Clone for Author {
    fn clone(&self) -> (copy: Self)
        ensures
            copy@ == self@,
    {
        Author {
            id: self.id,
            first_name: self.first_name.clone(),
            last_name: self.last_name.clone(),
            middle_name: self.middle_name.clone(),
            annotation_exists: self.annotation_exists,
        }
    }
}

impl GetId for Author {
    open spec fn id(&self) -> i32 {
        self.id
    }

    fn get_id(&self) -> (id: i32) {
        self.id
    }
}

/// An author as the store holds one: the middle name may be missing.
#[derive(Debug, PartialEq, Eq)]
pub struct AuthorRecord {
    pub id: i32,
    pub first_name: String,
    pub last_name: String,
    pub middle_name: Option<String>,
}

/// What an `AuthorRecord` holds.
pub struct AuthorRecordView {
    pub id: i32,
    pub first_name: Seq<char>,
    pub last_name: Seq<char>,
    pub middle_name: Option<Seq<char>>,
}

impl View for AuthorRecord {
    type V = AuthorRecordView;

    open spec fn view(&self) -> AuthorRecordView {
        AuthorRecordView {
            id: self.id,
            first_name: self.first_name@,
            last_name: self.last_name@,
            middle_name: match self.middle_name {
                Some(text) => Some(text@),
                None => None,
            },
        }
    }
}

impl DeepView for AuthorRecord {
    type V = AuthorRecordView;

    open spec fn deep_view(&self) -> AuthorRecordView {
        self@
    }
}

/// A book as it is listed under one of its authors.
#[derive(Debug, PartialEq, Eq)]
pub struct AuthorBook {
    pub id: i32,
    pub title: String,
    /// The language code.
    pub lang: String,
    /// The format in which the book is stored.
    pub file_type: String,
    /// The year of publication.
    pub year: i32,
    /// The formats in which the book is offered.
    pub available_types: Vec<String>,
    /// The day on which the book was uploaded.
    pub uploaded: NaiveDate,
    pub translators: Vec<Author>,
    pub sequences: Vec<Sequence>,
    /// Whether the store holds an annotation for this book.
    pub annotation_exists: bool,
}

/// What an `AuthorBook` holds.
pub struct AuthorBookView {
    pub id: i32,
    pub title: Seq<char>,
    pub lang: Seq<char>,
    pub file_type: Seq<char>,
    pub year: i32,
    pub available_types: Seq<Seq<char>>,
    pub uploaded: NaiveDate,
    pub translators: Seq<AuthorView>,
    pub sequences: Seq<SequenceView>,
    pub annotation_exists: bool,
}

impl View for AuthorBook {
    type V = AuthorBookView;

    open spec fn view(&self) -> AuthorBookView {
        AuthorBookView {
            id: self.id,
            title: self.title@,
            lang: self.lang@,
            file_type: self.file_type@,
            year: self.year,
            available_types: self.available_types.deep_view(),
            uploaded: self.uploaded,
            translators: self.translators.deep_view(),
            sequences: self.sequences.deep_view(),
            annotation_exists: self.annotation_exists,
        }
    }
}

impl DeepView for AuthorBook {
    type V = AuthorBookView;

    open spec fn deep_view(&self) -> AuthorBookView {
        self@
    }
}

impl GetId for AuthorBook {
    open spec fn id(&self) -> i32 {
        self.id
    }

    fn get_id(&self) -> (id: i32) {
        self.id
    }
}

} // verus!
