//! The nested aggregation builder: from a stored book and the related rows
//! that were fetched for it to the view objects that the catalog serves.

use crate::author::Author;
use crate::author::AuthorBook;
use crate::author::AuthorBookView;
use crate::author::AuthorRecord;
use crate::author::AuthorRecordView;
use crate::author::AuthorView;
use crate::book::BaseBook;
use crate::book::BaseBookView;
use crate::book::Book;
use crate::book::BookRecord;
use crate::book::BookRecordView;
use crate::book::BookView;
use crate::book::DetailBook;
use crate::book::DetailBookView;
use crate::book::RemoteBook;
use crate::book::RemoteBookView;
use crate::formats::available_types;
use crate::formats::get_available_types;
use crate::formats::lemma_own_type_is_available;
use crate::genre::Genre;
use crate::genre::GenreView;
use crate::sequence::Sequence;
use crate::sequence::SequenceBook;
use crate::sequence::SequenceBookView;
use crate::sequence::SequenceView;
use crate::translator::TranslatorBook;
use crate::translator::TranslatorBookView;
use vstd::prelude::*;

verus! {

/// One row of the association between books and their authors, or between
/// books and their translators, with the author it names.
#[derive(Debug, PartialEq, Eq)]
pub struct AuthorLink {
    /// The id of the book.
    pub book: i32,
    pub author: Author,
}

/// What an `AuthorLink` holds.
pub struct AuthorLinkView {
    pub book: i32,
    pub author: AuthorView,
}

impl View for AuthorLink {
    type V = AuthorLinkView;

    open spec fn view(&self) -> AuthorLinkView {
        AuthorLinkView {
            book: self.book,
            author: self.author@,
        }
    }
}

impl DeepView for AuthorLink {
    type V = AuthorLinkView;

    open spec fn deep_view(&self) -> AuthorLinkView {
        self@
    }
}

/// One row of the association between books and sequences, with the
/// sequence it names.
#[derive(Debug, PartialEq, Eq)]
pub struct SequenceLink {
    /// The id of the book.
    pub book: i32,
    pub sequence: Sequence,
    /// The place of the book in the sequence.
    pub position: i32,
}

/// What a `SequenceLink` holds.
pub struct SequenceLinkView {
    pub book: i32,
    pub sequence: SequenceView,
    pub position: i32,
}

impl View for SequenceLink {
    type V = SequenceLinkView;

    open spec fn view(&self) -> SequenceLinkView {
        SequenceLinkView {
            book: self.book,
            sequence: self.sequence@,
            position: self.position,
        }
    }
}

impl DeepView for SequenceLink {
    type V = SequenceLinkView;

    open spec fn deep_view(&self) -> SequenceLinkView {
        self@
    }
}

/// One row of the association between books and genres, with the genre
/// it names.
#[derive(Debug, PartialEq, Eq)]
pub struct GenreLink {
    /// The id of the book.
    pub book: i32,
    pub genre: Genre,
}

/// What a `GenreLink` holds.
pub struct GenreLinkView {
    pub book: i32,
    pub genre: GenreView,
}

impl View for GenreLink {
    type V = GenreLinkView;

    open spec fn view(&self) -> GenreLinkView {
        GenreLinkView {
            book: self.book,
            genre: self.genre@,
        }
    }
}

impl DeepView for GenreLink {
    type V = GenreLinkView;

    open spec fn deep_view(&self) -> GenreLinkView {
        self@
    }
}

/// The related rows that were fetched for a set of books, each list in the
/// order in which the store returned it.
#[derive(Debug, PartialEq, Eq)]
pub struct Relations {
    pub authors: Vec<AuthorLink>,
    pub translators: Vec<AuthorLink>,
    pub sequences: Vec<SequenceLink>,
    pub genres: Vec<GenreLink>,
    /// The ids of the books for which an annotation row exists.
    pub annotated: Vec<i32>,
}

/// What a `Relations` holds.
pub struct RelationsView {
    pub authors: Seq<AuthorLinkView>,
    pub translators: Seq<AuthorLinkView>,
    pub sequences: Seq<SequenceLinkView>,
    pub genres: Seq<GenreLinkView>,
    pub annotated: Seq<i32>,
}

impl View for Relations {
    type V = RelationsView;

    open spec fn view(&self) -> RelationsView {
        RelationsView {
            authors: self.authors.deep_view(),
            translators: self.translators.deep_view(),
            sequences: self.sequences.deep_view(),
            genres: self.genres.deep_view(),
            annotated: self.annotated@,
        }
    }
}

impl DeepView for Relations {
    type V = RelationsView;

    open spec fn deep_view(&self) -> RelationsView {
        self@
    }
}

/// A book of a sequence as the store holds it, with its place in the
/// sequence.
#[derive(Debug, PartialEq, Eq)]
pub struct SequenceEntry {
    pub book: BookRecord,
    /// The place of the book in the sequence.
    pub position: i32,
}

/// What a `SequenceEntry` holds.
pub struct SequenceEntryView {
    pub book: BookRecordView,
    pub position: i32,
}

impl View for SequenceEntry {
    type V = SequenceEntryView;

    open spec fn view(&self) -> SequenceEntryView {
        SequenceEntryView {
            book: self.book@,
            position: self.position,
        }
    }
}

impl DeepView for SequenceEntry {
    type V = SequenceEntryView;

    open spec fn deep_view(&self) -> SequenceEntryView {
        self@
    }
}

/// The authors that `links` gives the book `book`, in the order of the
/// links.
pub open spec fn linked_authors(book: i32, links: Seq<AuthorLinkView>) -> Seq<AuthorView>
    decreases links.len(),
{
    if links.len() == 0 {
        Seq::empty()
    } else if links.last().book == book {
        linked_authors(book, links.drop_last()).push(links.last().author)
    } else {
        linked_authors(book, links.drop_last())
    }
}

/// The authors that `links` gives the book `book`, in the order of the
/// links.
pub fn authors_of(book: i32, links: &Vec<AuthorLink>) -> (authors: Vec<Author>)
    ensures
        authors.deep_view() == linked_authors(book, links.deep_view()),
{
    let mut authors: Vec<Author> = Vec::new();
    let mut i: usize = 0;
    assert(links.deep_view().take(0) =~= Seq::empty());
    while i < links.len()
        invariant
            i <= links.len(),
            authors.deep_view() == linked_authors(book, links.deep_view().take(i as int)),
        decreases links.len() - i,
    {
        let ghost before = authors.deep_view();
        proof {
            let all = links.deep_view();
            assert(all.take(i + 1).drop_last() =~= all.take(i as int));
            assert(all.take(i + 1).last() == links[i as int]@);
        }
        if links[i].book == book {
            authors.push(links[i].author.clone());
            assert(authors.deep_view() =~= before.push(links[i as int].author@));
        }
        i += 1;
    }
    assert(links.deep_view().take(links.len() as int) =~= links.deep_view());
    authors
}

/// The sequences that `links` gives the book `book`, in the order of the
/// links.
pub open spec fn linked_sequences(book: i32, links: Seq<SequenceLinkView>) -> Seq<SequenceView>
    decreases links.len(),
{
    if links.len() == 0 {
        Seq::empty()
    } else if links.last().book == book {
        linked_sequences(book, links.drop_last()).push(links.last().sequence)
    } else {
        linked_sequences(book, links.drop_last())
    }
}

/// The sequences that `links` gives the book `book`, in the order of the
/// links.
pub fn sequences_of(book: i32, links: &Vec<SequenceLink>) -> (sequences: Vec<Sequence>)
    ensures
        sequences.deep_view() == linked_sequences(book, links.deep_view()),
{
    let mut sequences: Vec<Sequence> = Vec::new();
    let mut i: usize = 0;
    assert(links.deep_view().take(0) =~= Seq::empty());
    while i < links.len()
        invariant
            i <= links.len(),
            sequences.deep_view() == linked_sequences(book, links.deep_view().take(i as int)),
        decreases links.len() - i,
    {
        let ghost before = sequences.deep_view();
        proof {
            let all = links.deep_view();
            assert(all.take(i + 1).drop_last() =~= all.take(i as int));
            assert(all.take(i + 1).last() == links[i as int]@);
        }
        if links[i].book == book {
            sequences.push(links[i].sequence.clone());
            assert(sequences.deep_view() =~= before.push(links[i as int].sequence@));
        }
        i += 1;
    }
    assert(links.deep_view().take(links.len() as int) =~= links.deep_view());
    sequences
}

/// The genres that `links` gives the book `book`, in the order of the
/// links.
pub open spec fn linked_genres(book: i32, links: Seq<GenreLinkView>) -> Seq<GenreView>
    decreases links.len(),
{
    if links.len() == 0 {
        Seq::empty()
    } else if links.last().book == book {
        linked_genres(book, links.drop_last()).push(links.last().genre)
    } else {
        linked_genres(book, links.drop_last())
    }
}

/// The genres that `links` gives the book `book`, in the order of the
/// links.
pub fn genres_of(book: i32, links: &Vec<GenreLink>) -> (genres: Vec<Genre>)
    ensures
        genres.deep_view() == linked_genres(book, links.deep_view()),
{
    let mut genres: Vec<Genre> = Vec::new();
    let mut i: usize = 0;
    assert(links.deep_view().take(0) =~= Seq::empty());
    while i < links.len()
        invariant
            i <= links.len(),
            genres.deep_view() == linked_genres(book, links.deep_view().take(i as int)),
        decreases links.len() - i,
    {
        let ghost before = genres.deep_view();
        proof {
            let all = links.deep_view();
            assert(all.take(i + 1).drop_last() =~= all.take(i as int));
            assert(all.take(i + 1).last() == links[i as int]@);
        }
        if links[i].book == book {
            genres.push(links[i].genre.clone());
            assert(genres.deep_view() =~= before.push(links[i as int].genre@));
        }
        i += 1;
    }
    assert(links.deep_view().take(links.len() as int) =~= links.deep_view());
    genres
}

/// Whether `ids` mentions `id`: whether a row exists for it.
pub fn mentions(ids: &Vec<i32>, id: i32) -> (found: bool)
    ensures
        found == ids@.contains(id),
{
    let mut i: usize = 0;
    while i < ids.len()
        invariant
            i <= ids.len(),
            forall|k: int| 0 <= k < i ==> ids[k] != id,
        decreases ids.len() - i,
    {
        if ids[i] == id {
            return true;
        }
        i += 1;
    }
    false
}

/// The author that the catalog serves for a stored author: a missing
/// middle name reads as the empty text, and the author is annotated when
/// `annotated` mentions the id.
pub open spec fn author_of(record: AuthorRecordView, annotated: Seq<i32>) -> AuthorView {
    AuthorView {
        id: record.id,
        first_name: record.first_name,
        last_name: record.last_name,
        middle_name: match record.middle_name {
            Some(name) => name,
            None => Seq::empty(),
        },
        annotation_exists: annotated.contains(record.id),
    }
}

/// Builds the author that the catalog serves from a stored author and the
/// ids of the authors for which an annotation row exists.
pub fn build_author(record: AuthorRecord, annotated: &Vec<i32>) -> (author: Author)
    ensures
        author@ == author_of(record@, annotated@),
{
    let annotation_exists = mentions(annotated, record.id);
    let middle_name = match record.middle_name {
        Some(name) => name,
        None => String::new(),
    };
    Author {
        id: record.id,
        first_name: record.first_name,
        last_name: record.last_name,
        middle_name,
        annotation_exists,
    }
}

/// The full view of a book: the stored fields, the formats in which it is
/// offered, and the related rows that name it.
pub open spec fn detail_of(record: BookRecordView, relations: RelationsView) -> DetailBookView {
    DetailBookView {
        id: record.id,
        title: record.title,
        lang: record.lang,
        file_type: record.file_type,
        year: record.year,
        available_types: available_types(record.file_type, record.source.name),
        uploaded: record.uploaded,
        authors: linked_authors(record.id, relations.authors),
        translators: linked_authors(record.id, relations.translators),
        sequences: linked_sequences(record.id, relations.sequences),
        annotation_exists: relations.annotated.contains(record.id),
        source: record.source,
        remote_id: record.remote_id,
        genres: linked_genres(record.id, relations.genres),
        is_deleted: record.is_deleted,
        pages: record.pages,
    }
}

/// Builds the full view of a book from its stored row and the related
/// rows that were fetched.
pub fn build_detail_book(record: BookRecord, relations: &Relations) -> (book: DetailBook)
    ensures
        book@ == detail_of(record@, relations@),
{
    let available_types = get_available_types(
        record.file_type.clone(),
        record.source.name.clone(),
    );
    let authors = authors_of(record.id, &relations.authors);
    let translators = authors_of(record.id, &relations.translators);
    let sequences = sequences_of(record.id, &relations.sequences);
    let genres = genres_of(record.id, &relations.genres);
    let annotation_exists = mentions(&relations.annotated, record.id);
    DetailBook {
        id: record.id,
        title: record.title,
        lang: record.lang,
        file_type: record.file_type,
        year: record.year,
        available_types,
        uploaded: record.uploaded,
        authors,
        translators,
        sequences,
        annotation_exists,
        source: record.source,
        remote_id: record.remote_id,
        genres,
        is_deleted: record.is_deleted,
        pages: record.pages,
    }
}

impl DetailBookView {
    /// The book as search results list it.
    pub open spec fn book(self) -> BookView {
        BookView {
            id: self.id,
            title: self.title,
            lang: self.lang,
            file_type: self.file_type,
            year: self.year,
            available_types: self.available_types,
            uploaded: self.uploaded,
            authors: self.authors,
            translators: self.translators,
            sequences: self.sequences,
            annotation_exists: self.annotation_exists,
        }
    }

    /// The book as it is listed with its source.
    pub open spec fn remote_book(self) -> RemoteBookView {
        RemoteBookView {
            id: self.id,
            title: self.title,
            lang: self.lang,
            file_type: self.file_type,
            year: self.year,
            available_types: self.available_types,
            uploaded: self.uploaded,
            authors: self.authors,
            translators: self.translators,
            sequences: self.sequences,
            annotation_exists: self.annotation_exists,
            source: self.source,
            remote_id: self.remote_id,
        }
    }

    /// The book as a list of formats needs it.
    pub open spec fn base_book(self) -> BaseBookView {
        BaseBookView {
            id: self.id,
            available_types: self.available_types,
        }
    }

    /// The book as it is listed under one of its authors.
    pub open spec fn author_book(self) -> AuthorBookView {
        AuthorBookView {
            id: self.id,
            title: self.title,
            lang: self.lang,
            file_type: self.file_type,
            year: self.year,
            available_types: self.available_types,
            uploaded: self.uploaded,
            translators: self.translators,
            sequences: self.sequences,
            annotation_exists: self.annotation_exists,
        }
    }

    /// The book as it is listed under one of its translators.
    pub open spec fn translator_book(self) -> TranslatorBookView {
        TranslatorBookView {
            id: self.id,
            title: self.title,
            lang: self.lang,
            file_type: self.file_type,
            year: self.year,
            available_types: self.available_types,
            uploaded: self.uploaded,
            authors: self.authors,
            sequences: self.sequences,
            annotation_exists: self.annotation_exists,
        }
    }

    /// The book as it is listed within a sequence, at `position`.
    pub open spec fn sequence_book(self, position: i32) -> SequenceBookView {
        SequenceBookView {
            id: self.id,
            title: self.title,
            lang: self.lang,
            file_type: self.file_type,
            year: self.year,
            available_types: self.available_types,
            uploaded: self.uploaded,
            authors: self.authors,
            translators: self.translators,
            annotation_exists: self.annotation_exists,
            position,
        }
    }
}

impl DetailBook {
    /// The book as search results list it.
    pub fn into_book(self) -> (book: Book)
        ensures
            book@ == self@.book(),
    {
        Book {
            id: self.id,
            title: self.title,
            lang: self.lang,
            file_type: self.file_type,
            year: self.year,
            available_types: self.available_types,
            uploaded: self.uploaded,
            authors: self.authors,
            translators: self.translators,
            sequences: self.sequences,
            annotation_exists: self.annotation_exists,
        }
    }

    /// The book as it is listed with its source.
    pub fn into_remote_book(self) -> (book: RemoteBook)
        ensures
            book@ == self@.remote_book(),
    {
        RemoteBook {
            id: self.id,
            title: self.title,
            lang: self.lang,
            file_type: self.file_type,
            year: self.year,
            available_types: self.available_types,
            uploaded: self.uploaded,
            authors: self.authors,
            translators: self.translators,
            sequences: self.sequences,
            annotation_exists: self.annotation_exists,
            source: self.source,
            remote_id: self.remote_id,
        }
    }

    /// The book as a list of formats needs it.
    pub fn into_base_book(self) -> (book: BaseBook)
        ensures
            book@ == self@.base_book(),
    {
        BaseBook {
            id: self.id,
            available_types: self.available_types,
        }
    }

    /// The book as it is listed under one of its authors.
    pub fn into_author_book(self) -> (book: AuthorBook)
        ensures
            book@ == self@.author_book(),
    {
        AuthorBook {
            id: self.id,
            title: self.title,
            lang: self.lang,
            file_type: self.file_type,
            year: self.year,
            available_types: self.available_types,
            uploaded: self.uploaded,
            translators: self.translators,
            sequences: self.sequences,
            annotation_exists: self.annotation_exists,
        }
    }

    /// The book as it is listed under one of its translators.
    pub fn into_translator_book(self) -> (book: TranslatorBook)
        ensures
            book@ == self@.translator_book(),
    {
        TranslatorBook {
            id: self.id,
            title: self.title,
            lang: self.lang,
            file_type: self.file_type,
            year: self.year,
            available_types: self.available_types,
            uploaded: self.uploaded,
            authors: self.authors,
            sequences: self.sequences,
            annotation_exists: self.annotation_exists,
        }
    }

    /// The book as it is listed within a sequence, at `position`.
    pub fn into_sequence_book(self, position: i32) -> (book: SequenceBook)
        ensures
            book@ == self@.sequence_book(position),
    {
        SequenceBook {
            id: self.id,
            title: self.title,
            lang: self.lang,
            file_type: self.file_type,
            year: self.year,
            available_types: self.available_types,
            uploaded: self.uploaded,
            authors: self.authors,
            translators: self.translators,
            annotation_exists: self.annotation_exists,
            position,
        }
    }
}

/// `items` in the opposite order.
pub fn reversed<T>(items: Vec<T>) -> (turned: Vec<T>)
    ensures
        turned@ == items@.reverse(),
{
    let ghost orig = items@;
    let mut rest = items;
    let mut turned: Vec<T> = Vec::new();
    while rest.len() > 0
        invariant
            rest.len() + turned.len() == orig.len(),
            rest@ == orig.take(rest.len() as int),
            forall|i: int| 0 <= i < turned.len() ==> turned[i] == orig[orig.len() - 1 - i],
        decreases rest.len(),
    {
        let item = rest.pop().unwrap();
        turned.push(item);
    }
    assert(turned@ =~= orig.reverse());
    turned
}

/// Builds the authors that the catalog serves from stored authors, one
/// for one and in the same order.
pub fn build_authors(records: Vec<AuthorRecord>, annotated: &Vec<i32>) -> (authors: Vec<Author>)
    ensures
        authors.deep_view() == records.deep_view().map_values(
            |record: AuthorRecordView| author_of(record, annotated@),
        ),
{
    let ghost orig = records.deep_view();
    let mut stack = reversed(records);
    let mut authors: Vec<Author> = Vec::new();
    while stack.len() > 0
        invariant
            stack.len() + authors.len() == orig.len(),
            forall|i: int|
                0 <= i < stack.len() ==> (#[trigger] stack[i])@ == orig[orig.len() - 1 - i],
            forall|k: int|
                0 <= k < authors.len() ==> (#[trigger] authors[k])@ == author_of(
                    orig[k],
                    annotated@,
                ),
        decreases stack.len(),
    {
        let record = stack.pop().unwrap();
        authors.push(build_author(record, annotated));
    }
    assert(authors.deep_view() =~= orig.map_values(
        |record: AuthorRecordView| author_of(record, annotated@),
    ));
    authors
}

/// Builds the books that search results list
/// from stored books and the related rows that were fetched for them, one
/// for one and in the same order.
pub fn build_books(
    records: Vec<BookRecord>,
    relations: &Relations,
) -> (books: Vec<Book>)
    ensures
        books.deep_view() == records.deep_view().map_values(
            |record: BookRecordView| detail_of(record, relations@).book(),
        ),
{
    let ghost orig = records.deep_view();
    let mut stack = reversed(records);
    let mut books: Vec<Book> = Vec::new();
    while stack.len() > 0
        invariant
            stack.len() + books.len() == orig.len(),
            forall|i: int|
                0 <= i < stack.len() ==> (#[trigger] stack[i])@ == orig[orig.len() - 1 - i],
            forall|k: int|
                0 <= k < books.len() ==> (#[trigger] books[k])@ == detail_of(
                    orig[k],
                    relations@,
                ).book(),
        decreases stack.len(),
    {
        let record = stack.pop().unwrap();
        books.push(build_detail_book(record, relations).into_book());
    }
    assert(books.deep_view() =~= orig.map_values(
        |record: BookRecordView| detail_of(record, relations@).book(),
    ));
    books
}

/// Builds the books that are listed with their source
/// from stored books and the related rows that were fetched for them, one
/// for one and in the same order.
pub fn build_remote_books(
    records: Vec<BookRecord>,
    relations: &Relations,
) -> (books: Vec<RemoteBook>)
    ensures
        books.deep_view() == records.deep_view().map_values(
            |record: BookRecordView| detail_of(record, relations@).remote_book(),
        ),
{
    let ghost orig = records.deep_view();
    let mut stack = reversed(records);
    let mut books: Vec<RemoteBook> = Vec::new();
    while stack.len() > 0
        invariant
            stack.len() + books.len() == orig.len(),
            forall|i: int|
                0 <= i < stack.len() ==> (#[trigger] stack[i])@ == orig[orig.len() - 1 - i],
            forall|k: int|
                0 <= k < books.len() ==> (#[trigger] books[k])@ == detail_of(
                    orig[k],
                    relations@,
                ).remote_book(),
        decreases stack.len(),
    {
        let record = stack.pop().unwrap();
        books.push(build_detail_book(record, relations).into_remote_book());
    }
    assert(books.deep_view() =~= orig.map_values(
        |record: BookRecordView| detail_of(record, relations@).remote_book(),
    ));
    books
}

/// Builds the books that a list of formats needs
/// from stored books and the related rows that were fetched for them, one
/// for one and in the same order.
pub fn build_base_books(
    records: Vec<BookRecord>,
    relations: &Relations,
) -> (books: Vec<BaseBook>)
    ensures
        books.deep_view() == records.deep_view().map_values(
            |record: BookRecordView| detail_of(record, relations@).base_book(),
        ),
{
    let ghost orig = records.deep_view();
    let mut stack = reversed(records);
    let mut books: Vec<BaseBook> = Vec::new();
    while stack.len() > 0
        invariant
            stack.len() + books.len() == orig.len(),
            forall|i: int|
                0 <= i < stack.len() ==> (#[trigger] stack[i])@ == orig[orig.len() - 1 - i],
            forall|k: int|
                0 <= k < books.len() ==> (#[trigger] books[k])@ == detail_of(
                    orig[k],
                    relations@,
                ).base_book(),
        decreases stack.len(),
    {
        let record = stack.pop().unwrap();
        books.push(build_detail_book(record, relations).into_base_book());
    }
    assert(books.deep_view() =~= orig.map_values(
        |record: BookRecordView| detail_of(record, relations@).base_book(),
    ));
    books
}

/// Builds the books that are listed under an author
/// from stored books and the related rows that were fetched for them, one
/// for one and in the same order.
pub fn build_author_books(
    records: Vec<BookRecord>,
    relations: &Relations,
) -> (books: Vec<AuthorBook>)
    ensures
        books.deep_view() == records.deep_view().map_values(
            |record: BookRecordView| detail_of(record, relations@).author_book(),
        ),
{
    let ghost orig = records.deep_view();
    let mut stack = reversed(records);
    let mut books: Vec<AuthorBook> = Vec::new();
    while stack.len() > 0
        invariant
            stack.len() + books.len() == orig.len(),
            forall|i: int|
                0 <= i < stack.len() ==> (#[trigger] stack[i])@ == orig[orig.len() - 1 - i],
            forall|k: int|
                0 <= k < books.len() ==> (#[trigger] books[k])@ == detail_of(
                    orig[k],
                    relations@,
                ).author_book(),
        decreases stack.len(),
    {
        let record = stack.pop().unwrap();
        books.push(build_detail_book(record, relations).into_author_book());
    }
    assert(books.deep_view() =~= orig.map_values(
        |record: BookRecordView| detail_of(record, relations@).author_book(),
    ));
    books
}

/// Builds the books that are listed under a translator
/// from stored books and the related rows that were fetched for them, one
/// for one and in the same order.
pub fn build_translator_books(
    records: Vec<BookRecord>,
    relations: &Relations,
) -> (books: Vec<TranslatorBook>)
    ensures
        books.deep_view() == records.deep_view().map_values(
            |record: BookRecordView| detail_of(record, relations@).translator_book(),
        ),
{
    let ghost orig = records.deep_view();
    let mut stack = reversed(records);
    let mut books: Vec<TranslatorBook> = Vec::new();
    while stack.len() > 0
        invariant
            stack.len() + books.len() == orig.len(),
            forall|i: int|
                0 <= i < stack.len() ==> (#[trigger] stack[i])@ == orig[orig.len() - 1 - i],
            forall|k: int|
                0 <= k < books.len() ==> (#[trigger] books[k])@ == detail_of(
                    orig[k],
                    relations@,
                ).translator_book(),
        decreases stack.len(),
    {
        let record = stack.pop().unwrap();
        books.push(build_detail_book(record, relations).into_translator_book());
    }
    assert(books.deep_view() =~= orig.map_values(
        |record: BookRecordView| detail_of(record, relations@).translator_book(),
    ));
    books
}

/// Builds the books that are listed within a sequence from the stored
/// books of the sequence and the related rows that were fetched for them,
/// one for one and in the same order, each with its place in the
/// sequence.
pub fn build_sequence_books(
    entries: Vec<SequenceEntry>,
    relations: &Relations,
) -> (books: Vec<SequenceBook>)
    ensures
        books.deep_view() == entries.deep_view().map_values(
            |entry: SequenceEntryView|
                detail_of(entry.book, relations@).sequence_book(entry.position),
        ),
{
    let ghost orig = entries.deep_view();
    let mut stack = reversed(entries);
    let mut books: Vec<SequenceBook> = Vec::new();
    while stack.len() > 0
        invariant
            stack.len() + books.len() == orig.len(),
            forall|i: int|
                0 <= i < stack.len() ==> (#[trigger] stack[i])@ == orig[orig.len() - 1 - i],
            forall|k: int|
                0 <= k < books.len() ==> (#[trigger] books[k])@ == detail_of(
                    orig[k].book,
                    relations@,
                ).sequence_book(orig[k].position),
        decreases stack.len(),
    {
        let entry = stack.pop().unwrap();
        books.push(build_detail_book(entry.book, relations).into_sequence_book(entry.position));
    }
    assert(books.deep_view() =~= orig.map_values(
        |entry: SequenceEntryView| detail_of(entry.book, relations@).sequence_book(entry.position),
    ));
    books
}

/// The full view of a book always offers the format in which the book is
/// stored, and offers it first.
pub proof fn lemma_detail_offers_own_type(record: BookRecordView, relations: RelationsView)
    ensures
        detail_of(record, relations).available_types.contains(record.file_type),
        detail_of(record, relations).available_types[0] == record.file_type,
{
    lemma_own_type_is_available(record.file_type, record.source.name);
}

} // verus!
