//! Annotations of authors and books.

use vstd::prelude::*;

verus! {

/// The long-form annotation of an author.
#[derive(Debug, PartialEq, Eq)]
pub struct AuthorAnnotation {
    pub id: i32,
    pub title: String,
    pub text: String,
    /// The name of an attached file.
    pub file: Option<String>,
}

/// What an `AuthorAnnotation` holds.
pub struct AuthorAnnotationView {
    pub id: i32,
    pub title: Seq<char>,
    pub text: Seq<char>,
    pub file: Option<Seq<char>>,
}

impl View for AuthorAnnotation {
    type V = AuthorAnnotationView;

    open spec fn view(&self) -> AuthorAnnotationView {
        AuthorAnnotationView {
            id: self.id,
            title: self.title@,
            text: self.text@,
            file: match self.file {
                Some(text) => Some(text@),
                None => None,
            },
        }
    }
}

impl DeepView for AuthorAnnotation {
    type V = AuthorAnnotationView;

    open spec fn deep_view(&self) -> AuthorAnnotationView {
        self@
    }
}

/// The long-form annotation of a book.
#[derive(Debug, PartialEq, Eq)]
pub struct BookAnnotation {
    pub id: i32,
    pub title: String,
    pub text: String,
    /// The name of an attached file.
    pub file: Option<String>,
}

/// What a `BookAnnotation` holds.
pub struct BookAnnotationView {
    pub id: i32,
    pub title: Seq<char>,
    pub text: Seq<char>,
    pub file: Option<Seq<char>>,
}

impl View for BookAnnotation {
    type V = BookAnnotationView;

    open spec fn view(&self) -> BookAnnotationView {
        BookAnnotationView {
            id: self.id,
            title: self.title@,
            text: self.text@,
            file: match self.file {
                Some(text) => Some(text@),
                None => None,
            },
        }
    }
}

impl DeepView for BookAnnotation {
    type V = BookAnnotationView;

    open spec fn deep_view(&self) -> BookAnnotationView {
        self@
    }
}

} // verus!
