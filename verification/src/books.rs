//! What the catalog answers to requests for books.

use crate::aggregate::build_base_books;
use crate::aggregate::build_detail_book;
use crate::aggregate::build_remote_books;
use crate::aggregate::detail_of;
use crate::aggregate::Relations;
use crate::annotation::BookAnnotation;
use crate::book::BaseBook;
use crate::book::Book;
use crate::book::BookRecord;
use crate::book::BookRecordView;
use crate::book::DetailBook;
use crate::book::RandomBookFilter;
use crate::book::RemoteBook;
use crate::error::found;
use crate::error::CatalogError;
use crate::pagination::page_count;
use crate::pagination::Page;
use crate::pagination::Pagination;
use crate::rank::in_rank_order;
use crate::sampler::get_random_item;
use crate::sampler::stepped;
use crate::sampler::SampleAction;
use crate::sampler::SampleEvent;
use crate::sampler::SampleState;
use crate::search::filter_clause;
use crate::search::random_book_filter;
use crate::search::search_page;
use crate::search::SearchTarget;
use vstd::prelude::*;

verus! {

/// The page of a filtered list of books, each with its source: the books
/// that the store returned for the page, in its order, under the count
/// that the store gave for the filter.
pub fn get_books(
    records: Vec<BookRecord>,
    relations: &Relations,
    books_count: i64,
    pagination: &Pagination,
) -> (page: Page<RemoteBook>)
    requires
        pagination.wf(),
        books_count >= 0,
    ensures
        page.items.deep_view() == records.deep_view().map_values(
            |record: BookRecordView| detail_of(record, relations@).remote_book(),
        ),
        page.total == books_count,
        page.page == pagination.page,
        page.size == pagination.size,
        page.pages == page_count(books_count as int, pagination.size as int),
{
    Page::new(build_remote_books(records, relations), books_count, pagination)
}

/// The page of a filtered list of books, each reduced to its id and the
/// formats in which it is offered.
pub fn get_base_books(
    records: Vec<BookRecord>,
    relations: &Relations,
    books_count: i64,
    pagination: &Pagination,
) -> (page: Page<BaseBook>)
    requires
        pagination.wf(),
        books_count >= 0,
    ensures
        page.items.deep_view() == records.deep_view().map_values(
            |record: BookRecordView| detail_of(record, relations@).base_book(),
        ),
        page.total == books_count,
        page.page == pagination.page,
        page.size == pagination.size,
        page.pages == page_count(books_count as int, pagination.size as int),
{
    Page::new(build_base_books(records, relations), books_count, pagination)
}

/// One step of drawing a random book for `book_filter`: a step of a draw
/// from the index of books, under the filter on the languages and, where
/// one is named, the genre.
pub fn get_random_book(
    book_filter: &RandomBookFilter,
    state: SampleState,
    event: &SampleEvent,
) -> (next: (SampleState, SampleAction))
    ensures
        stepped(
            SearchTarget::Books.index(),
            filter_clause(
                SearchTarget::Books,
                book_filter.allowed_langs.deep_view(),
                book_filter.genre,
            ),
            state,
            event@,
            (next.0, next.1@),
        ),
{
    let filter = random_book_filter(book_filter);
    get_random_item(SearchTarget::Books.index_name(), &filter, state, event)
}

/// The full view of the book that a lookup by id returned, or `NotFound`
/// where it returned none.
pub fn get_book(record: Option<BookRecord>, relations: &Relations) -> (book: Result<
    DetailBook,
    CatalogError,
>)
    ensures
        record is Some ==> book is Ok && book->Ok_0@ == detail_of(record->Some_0@, relations@),
        record is None ==> book == Err::<DetailBook, CatalogError>(CatalogError::NotFound),
{
    match found(record) {
        Ok(record) => Ok(build_detail_book(record, relations)),
        Err(error) => Err(error),
    }
}

/// The full view of the book that a lookup by source and remote id
/// returned, or `NotFound` where it returned none.
pub fn get_remote_book(record: Option<BookRecord>, relations: &Relations) -> (book: Result<
    DetailBook,
    CatalogError,
>)
    ensures
        record is Some ==> book is Ok && book->Ok_0@ == detail_of(record->Some_0@, relations@),
        record is None ==> book == Err::<DetailBook, CatalogError>(CatalogError::NotFound),
{
    get_book(record, relations)
}

/// The page of a text search for books: the books that the store returned
/// for `book_ids`, in the rank of `book_ids`, under the estimated total.
pub fn search_books(
    book_ids: &Vec<i32>,
    estimated_total: usize,
    books: Vec<Book>,
    pagination: &Pagination,
) -> (page: Page<Book>)
    requires
        pagination.wf(),
        estimated_total <= i64::MAX,
    ensures
        page.items@ == in_rank_order(book_ids@, books@),
        page.total == estimated_total,
        page.page == pagination.page,
        page.size == pagination.size,
        page.pages == page_count(estimated_total as int, pagination.size as int),
{
    search_page(book_ids, estimated_total, books, pagination)
}

/// The annotation that a lookup by book returned, or `NotFound` where it
/// returned none.
pub fn get_book_annotation(annotation: Option<BookAnnotation>) -> (outcome: Result<
    BookAnnotation,
    CatalogError,
>)
    ensures
        outcome == (match annotation {
            Some(item) => Ok::<BookAnnotation, CatalogError>(item),
            None => Err::<BookAnnotation, CatalogError>(CatalogError::NotFound),
        }),
{
    found(annotation)
}

} // verus!
