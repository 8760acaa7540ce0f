//! What the catalog answers to requests for translators.

use crate::aggregate::author_of;
use crate::aggregate::build_author;
use crate::aggregate::build_translator_books;
use crate::aggregate::detail_of;
use crate::aggregate::Relations;
use crate::author::Author;
use crate::author::AuthorRecord;
use crate::book::BaseBook;
use crate::book::BookRecord;
use crate::book::BookRecordView;
use crate::error::found;
use crate::error::CatalogError;
use crate::formats::collect_available_types;
use crate::formats::offered_types;
use crate::pagination::page_count;
use crate::pagination::Page;
use crate::pagination::PageWithParent;
use crate::pagination::Pagination;
use crate::rank::in_rank_order;
use crate::search::search_page;
use crate::translator::TranslatorBook;
use vstd::prelude::*;

verus! {

/// The page of the books that one translator translated, with the
/// translator: `NotFound` where the store holds no such author, otherwise
/// the books that the store returned for the page, in its order, under
/// the count of the translator's books.
pub fn get_translated_books(
    translator: Option<AuthorRecord>,
    annotated_authors: &Vec<i32>,
    records: Vec<BookRecord>,
    relations: &Relations,
    books_count: i64,
    pagination: &Pagination,
) -> (page: Result<PageWithParent<TranslatorBook, Author>, CatalogError>)
    requires
        pagination.wf(),
        books_count >= 0,
    ensures
        translator is None ==> page == Err::<
            PageWithParent<TranslatorBook, Author>,
            CatalogError,
        >(CatalogError::NotFound),
        translator is Some ==> page is Ok && ({
            let page = page->Ok_0;
            &&& page.parent_item@ == author_of(translator->Some_0@, annotated_authors@)
            &&& page.items.deep_view() == records.deep_view().map_values(
                |record: BookRecordView| detail_of(record, relations@).translator_book(),
            )
            &&& page.total == books_count
            &&& page.page == pagination.page
            &&& page.size == pagination.size
            &&& page.pages == page_count(books_count as int, pagination.size as int)
        }),
{
    match found(translator) {
        Ok(translator) => {
            let parent = build_author(translator, annotated_authors);
            let books = build_translator_books(records, relations);
            Ok(PageWithParent::new(parent, books, books_count, pagination))
        },
        Err(error) => Err(error),
    }
}

/// The formats in which the books of one translator are offered taken
/// together.
pub fn get_translated_books_available_types(books: &Vec<BaseBook>) -> (types: Vec<String>)
    ensures
        types.deep_view() == offered_types(books.deep_view()),
{
    collect_available_types(books)
}

/// The page of a text search for translators: the authors that the store
/// returned for `translator_ids`, in the rank of `translator_ids`, under
/// the estimated total.
pub fn search_translators(
    translator_ids: &Vec<i32>,
    estimated_total: usize,
    translators: Vec<Author>,
    pagination: &Pagination,
) -> (page: Page<Author>)
    requires
        pagination.wf(),
        estimated_total <= i64::MAX,
    ensures
        page.items@ == in_rank_order(translator_ids@, translators@),
        page.total == estimated_total,
        page.page == pagination.page,
        page.size == pagination.size,
        page.pages == page_count(estimated_total as int, pagination.size as int),
{
    search_page(translator_ids, estimated_total, translators, pagination)
}

} // verus!
