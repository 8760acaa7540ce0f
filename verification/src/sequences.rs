//! What the catalog answers to requests for sequences.

use crate::aggregate::build_sequence_books;
use crate::aggregate::detail_of;
use crate::aggregate::Relations;
use crate::aggregate::SequenceEntry;
use crate::aggregate::SequenceEntryView;
use crate::book::BaseBook;
use crate::error::found;
use crate::error::CatalogError;
use crate::formats::collect_available_types;
use crate::formats::offered_types;
use crate::pagination::page_count;
use crate::pagination::Page;
use crate::pagination::PageWithParent;
use crate::pagination::Pagination;
use crate::rank::in_rank_order;
use crate::sampler::get_random_item;
use crate::sampler::stepped;
use crate::sampler::SampleAction;
use crate::sampler::SampleEvent;
use crate::sampler::SampleState;
use crate::search::filter_clause;
use crate::search::filter_expression;
use crate::search::search_page;
use crate::search::SearchTarget;
use crate::sequence::by_position;
use crate::sequence::sort_by_position;
use crate::sequence::Sequence;
use crate::sequence::SequenceBook;
use vstd::prelude::*;

verus! {

/// One step of drawing a random sequence with books in one of
/// `allowed_langs`.
pub fn get_random_sequence(
    allowed_langs: &Vec<String>,
    state: SampleState,
    event: &SampleEvent,
) -> (next: (SampleState, SampleAction))
    ensures
        stepped(
            SearchTarget::Sequences.index(),
            filter_clause(SearchTarget::Sequences, allowed_langs.deep_view(), None),
            state,
            event@,
            (next.0, next.1@),
        ),
{
    let filter = filter_expression(SearchTarget::Sequences, allowed_langs, None);
    get_random_item(SearchTarget::Sequences.index_name(), &filter, state, event)
}

/// The page of a text search for sequences: the sequences that the store
/// returned for `sequence_ids`, in the rank of `sequence_ids`, under the
/// estimated total.
pub fn search_sequence(
    sequence_ids: &Vec<i32>,
    estimated_total: usize,
    sequences: Vec<Sequence>,
    pagination: &Pagination,
) -> (page: Page<Sequence>)
    requires
        pagination.wf(),
        estimated_total <= i64::MAX,
    ensures
        page.items@ == in_rank_order(sequence_ids@, sequences@),
        page.total == estimated_total,
        page.page == pagination.page,
        page.size == pagination.size,
        page.pages == page_count(estimated_total as int, pagination.size as int),
{
    search_page(sequence_ids, estimated_total, sequences, pagination)
}

/// The sequence that a lookup by id returned, or `NotFound` where it
/// returned none.
pub fn get_sequence(sequence: Option<Sequence>) -> (outcome: Result<Sequence, CatalogError>)
    ensures
        outcome == (match sequence {
            Some(item) => Ok::<Sequence, CatalogError>(item),
            None => Err::<Sequence, CatalogError>(CatalogError::NotFound),
        }),
{
    found(sequence)
}

/// The formats in which the books of one sequence are offered taken
/// together.
pub fn get_sequence_available_types(books: &Vec<BaseBook>) -> (types: Vec<String>)
    ensures
        types.deep_view() == offered_types(books.deep_view()),
{
    collect_available_types(books)
}

/// The page of the books of one sequence, with the sequence: `NotFound`
/// where the store holds no such sequence, otherwise the books that the
/// store returned for the page, by ascending position in the sequence
/// whatever the order in which they came, under the count of the books of
/// the sequence.
pub fn get_sequence_books(
    sequence: Option<Sequence>,
    entries: Vec<SequenceEntry>,
    relations: &Relations,
    books_count: i64,
    pagination: &Pagination,
) -> (page: Result<PageWithParent<SequenceBook, Sequence>, CatalogError>)
    requires
        pagination.wf(),
        books_count >= 0,
    ensures
        sequence is None ==> page == Err::<PageWithParent<SequenceBook, Sequence>, CatalogError>(
            CatalogError::NotFound,
        ),
        sequence is Some ==> page is Ok && ({
            let page = page->Ok_0;
            &&& page.parent_item == sequence->Some_0
            &&& page.items.deep_view() == by_position(
                entries.deep_view().map_values(
                    |entry: SequenceEntryView|
                        detail_of(entry.book, relations@).sequence_book(entry.position),
                ),
            )
            &&& page.total == books_count
            &&& page.page == pagination.page
            &&& page.size == pagination.size
            &&& page.pages == page_count(books_count as int, pagination.size as int)
        }),
{
    match found(sequence) {
        Ok(sequence) => {
            let books = sort_by_position(build_sequence_books(entries, relations));
            Ok(PageWithParent::new(sequence, books, books_count, pagination))
        },
        Err(error) => Err(error),
    }
}

} // verus!
