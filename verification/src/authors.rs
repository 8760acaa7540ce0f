//! What the catalog answers to requests for authors.

use crate::aggregate::author_of;
use crate::aggregate::build_author;
use crate::aggregate::build_author_books;
use crate::aggregate::build_authors;
use crate::aggregate::detail_of;
use crate::aggregate::Relations;
use crate::annotation::AuthorAnnotation;
use crate::author::Author;
use crate::author::AuthorBook;
use crate::author::AuthorRecord;
use crate::author::AuthorRecordView;
use crate::book::BaseBook;
use crate::book::BookRecord;
use crate::book::BookRecordView;
use crate::error::found;
use crate::error::CatalogError;
use crate::formats::collect_available_types;
use crate::formats::offered_types;
use crate::pagination::page_count;
use crate::pagination::Page;
use crate::pagination::PageWithParent;
use crate::pagination::Pagination;
use crate::rank::in_rank_order;
use crate::sampler::get_random_item;
use crate::sampler::stepped;
use crate::sampler::SampleAction;
use crate::sampler::SampleEvent;
use crate::sampler::SampleState;
use crate::search::filter_clause;
use crate::search::filter_expression;
use crate::search::search_page;
use crate::search::SearchTarget;
use vstd::prelude::*;

verus! {

/// The page of the list of authors: the authors that the store returned
/// for the page, in its order, under the count of all authors.
pub fn get_authors(
    records: Vec<AuthorRecord>,
    annotated: &Vec<i32>,
    authors_count: i64,
    pagination: &Pagination,
) -> (page: Page<Author>)
    requires
        pagination.wf(),
        authors_count >= 0,
    ensures
        page.items.deep_view() == records.deep_view().map_values(
            |record: AuthorRecordView| author_of(record, annotated@),
        ),
        page.total == authors_count,
        page.page == pagination.page,
        page.size == pagination.size,
        page.pages == page_count(authors_count as int, pagination.size as int),
{
    Page::new(build_authors(records, annotated), authors_count, pagination)
}

/// One step of drawing a random author who wrote in one of
/// `allowed_langs`.
pub fn get_random_author(
    allowed_langs: &Vec<String>,
    state: SampleState,
    event: &SampleEvent,
) -> (next: (SampleState, SampleAction))
    ensures
        stepped(
            SearchTarget::Authors.index(),
            filter_clause(SearchTarget::Authors, allowed_langs.deep_view(), None),
            state,
            event@,
            (next.0, next.1@),
        ),
{
    let filter = filter_expression(SearchTarget::Authors, allowed_langs, None);
    get_random_item(SearchTarget::Authors.index_name(), &filter, state, event)
}

/// The author that a lookup by id returned, or `NotFound` where it
/// returned none.
pub fn get_author(record: Option<AuthorRecord>, annotated: &Vec<i32>) -> (author: Result<
    Author,
    CatalogError,
>)
    ensures
        record is Some ==> author is Ok && author->Ok_0@ == author_of(
            record->Some_0@,
            annotated@,
        ),
        record is None ==> author == Err::<Author, CatalogError>(CatalogError::NotFound),
{
    match found(record) {
        Ok(record) => Ok(build_author(record, annotated)),
        Err(error) => Err(error),
    }
}

/// The annotation that a lookup by author returned, or `NotFound` where
/// it returned none.
pub fn get_author_annotation(annotation: Option<AuthorAnnotation>) -> (outcome: Result<
    AuthorAnnotation,
    CatalogError,
>)
    ensures
        outcome == (match annotation {
            Some(item) => Ok::<AuthorAnnotation, CatalogError>(item),
            None => Err::<AuthorAnnotation, CatalogError>(CatalogError::NotFound),
        }),
{
    found(annotation)
}

/// The page of the books of one author, with the author: `NotFound` where
/// the store holds no such author, otherwise the books that the store
/// returned for the page, in its order, under the count of the author's
/// books.
pub fn get_author_books(
    author: Option<AuthorRecord>,
    annotated_authors: &Vec<i32>,
    records: Vec<BookRecord>,
    relations: &Relations,
    books_count: i64,
    pagination: &Pagination,
) -> (page: Result<PageWithParent<AuthorBook, Author>, CatalogError>)
    requires
        pagination.wf(),
        books_count >= 0,
    ensures
        author is None ==> page == Err::<PageWithParent<AuthorBook, Author>, CatalogError>(
            CatalogError::NotFound,
        ),
        author is Some ==> page is Ok && ({
            let page = page->Ok_0;
            &&& page.parent_item@ == author_of(author->Some_0@, annotated_authors@)
            &&& page.items.deep_view() == records.deep_view().map_values(
                |record: BookRecordView| detail_of(record, relations@).author_book(),
            )
            &&& page.total == books_count
            &&& page.page == pagination.page
            &&& page.size == pagination.size
            &&& page.pages == page_count(books_count as int, pagination.size as int)
        }),
{
    match found(author) {
        Ok(author) => {
            let parent = build_author(author, annotated_authors);
            let books = build_author_books(records, relations);
            Ok(PageWithParent::new(parent, books, books_count, pagination))
        },
        Err(error) => Err(error),
    }
}

/// The formats in which the books of one author are offered taken
/// together.
pub fn get_author_books_available_types(books: &Vec<BaseBook>) -> (types: Vec<String>)
    ensures
        types.deep_view() == offered_types(books.deep_view()),
{
    collect_available_types(books)
}

/// The page of a text search for authors: the authors that the store
/// returned for `author_ids`, in the rank of `author_ids`, under the
/// estimated total.
pub fn search_authors(
    author_ids: &Vec<i32>,
    estimated_total: usize,
    authors: Vec<Author>,
    pagination: &Pagination,
) -> (page: Page<Author>)
    requires
        pagination.wf(),
        estimated_total <= i64::MAX,
    ensures
        page.items@ == in_rank_order(author_ids@, authors@),
        page.total == estimated_total,
        page.page == pagination.page,
        page.size == pagination.size,
        page.pages == page_count(estimated_total as int, pagination.size as int),
{
    search_page(author_ids, estimated_total, authors, pagination)
}

} // verus!
