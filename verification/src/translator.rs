//! The books listed under a translator.

use chrono::NaiveDate;
use crate::author::Author;
use crate::author::AuthorView;
use crate::rank::GetId;
use crate::sequence::Sequence;
use crate::sequence::SequenceView;
use vstd::prelude::*;

verus! {

/// A book as it is listed under one of its translators.
#[derive(Debug, PartialEq, Eq)]
pub struct TranslatorBook {
    pub id: i32,
    pub title: String,
    /// The language code.
    pub lang: String,
    /// The format in which the book is stored.
    pub file_type: String,
    /// The year of publication.
    pub year: i32,
    /// The formats in which the book is offered.
    pub available_types: Vec<String>,
    /// The day on which the book was uploaded.
    pub uploaded: NaiveDate,
    pub authors: Vec<Author>,
    pub sequences: Vec<Sequence>,
    /// Whether the store holds an annotation for this book.
    pub annotation_exists: bool,
}

/// What a `TranslatorBook` holds.
pub struct TranslatorBookView {
    pub id: i32,
    pub title: Seq<char>,
    pub lang: Seq<char>,
    pub file_type: Seq<char>,
    pub year: i32,
    pub available_types: Seq<Seq<char>>,
    pub uploaded: NaiveDate,
    pub authors: Seq<AuthorView>,
    pub sequences: Seq<SequenceView>,
    pub annotation_exists: bool,
}

impl View for TranslatorBook {
    type V = TranslatorBookView;

    open spec fn view(&self) -> TranslatorBookView {
        TranslatorBookView {
            id: self.id,
            title: self.title@,
            lang: self.lang@,
            file_type: self.file_type@,
            year: self.year,
            available_types: self.available_types.deep_view(),
            uploaded: self.uploaded,
            authors: self.authors.deep_view(),
            sequences: self.sequences.deep_view(),
            annotation_exists: self.annotation_exists,
        }
    }
}

impl DeepView for TranslatorBook {
    type V = TranslatorBookView;

    open spec fn deep_view(&self) -> TranslatorBookView {
        self@
    }
}

impl GetId for TranslatorBook {
    open spec fn id(&self) -> i32 {
        self.id
    }

    fn get_id(&self) -> (id: i32) {
        self.id
    }
}

} // verus!
