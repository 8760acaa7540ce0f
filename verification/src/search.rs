//! Requests to the search service, and pages made of what it answers.

use crate::book::RandomBookFilter;
use crate::pagination::page_count;
use crate::pagination::page_offset;
use crate::pagination::Page;
use crate::pagination::Pagination;
use crate::rank::distinct_ids;
use crate::rank::in_rank_order;
use crate::rank::lemma_rank_order_len;
use crate::rank::lemma_rank_order_within_limit;
use crate::rank::order_by_rank;
use crate::rank::GetId;
use crate::text::decimal;
use crate::text::decimal_text;
use crate::text::join;
use crate::text::joined;
use vstd::prelude::*;

verus! {

/// What can be searched for.
#[derive(Clone, Copy, Debug, PartialEq, Eq, Structural)]
pub enum SearchTarget {
    Books,
    Authors,
    Translators,
    Sequences,
}

impl SearchTarget {
    /// The name of the index that holds the documents. Translators are
    /// authors, and are found in the index of authors.
    pub open spec fn index(self) -> Seq<char> {
        match self {
            SearchTarget::Books => "books"@,
            SearchTarget::Authors => "authors"@,
            SearchTarget::Translators => "authors"@,
            SearchTarget::Sequences => "sequences"@,
        }
    }

    /// The attribute of a document that holds its language codes.
    pub open spec fn lang_field(self) -> Seq<char> {
        match self {
            SearchTarget::Books => "lang"@,
            SearchTarget::Authors => "author_langs"@,
            SearchTarget::Translators => "translator_langs"@,
            SearchTarget::Sequences => "langs"@,
        }
    }

    /// The name of the index that holds the documents.
    pub fn index_name(self) -> (name: &'static str)
        ensures
            name@ == self.index(),
    {
        match self {
            SearchTarget::Books => "books",
            SearchTarget::Authors => "authors",
            SearchTarget::Translators => "authors",
            SearchTarget::Sequences => "sequences",
        }
    }

    /// The attribute of a document that holds its language codes.
    pub fn lang_field_name(self) -> (name: &'static str)
        ensures
            name@ == self.lang_field(),
    {
        match self {
            SearchTarget::Books => "lang",
            SearchTarget::Authors => "author_langs",
            SearchTarget::Translators => "translator_langs",
            SearchTarget::Sequences => "langs",
        }
    }
}

/// One request to the search service.
#[derive(Debug, PartialEq, Eq)]
pub struct SearchRequest {
    /// The name of the index to search.
    pub index: String,
    /// The text to search for, if any.
    pub query: Option<String>,
    /// The filter expression that every hit must meet.
    pub filter: String,
    /// Number of hits to skip.
    pub offset: usize,
    /// Greatest number of hits to return.
    pub limit: usize,
}

/// What a `SearchRequest` holds.
pub struct SearchRequestView {
    pub index: Seq<char>,
    pub query: Option<Seq<char>>,
    pub filter: Seq<char>,
    pub offset: usize,
    pub limit: usize,
}

impl View for SearchRequest {
    type V = SearchRequestView;

    open spec fn view(&self) -> SearchRequestView {
        SearchRequestView {
            index: self.index@,
            query: match self.query {
                Some(text) => Some(text@),
                None => None,
            },
            filter: self.filter@,
            offset: self.offset,
            limit: self.limit,
        }
    }
}

impl DeepView for SearchRequest {
    type V = SearchRequestView;

    open spec fn deep_view(&self) -> SearchRequestView {
        self@
    }
}

/// The filter expression that admits the documents whose attribute
/// `field` holds one of `langs`.
pub open spec fn lang_clause(field: Seq<char>, langs: Seq<Seq<char>>) -> Seq<char> {
    field + " IN ["@ + joined(langs, ", "@) + "]"@
}

/// The addition to a filter expression that admits only the documents of
/// the genre, where one is asked for.
pub open spec fn genre_clause(genre: Option<i32>) -> Seq<char> {
    match genre {
        Some(id) => " AND genres = "@ + decimal(id as int),
        None => Seq::empty(),
    }
}

/// Writes the filter expression that admits the documents whose attribute
/// `field` holds one of `langs`.
pub fn lang_filter(field: &str, langs: &Vec<String>) -> (filter: String)
    ensures
        filter@ == lang_clause(field@, langs.deep_view()),
{
    let mut filter = String::from_str(field);
    filter.append(" IN [");
    let list = join(langs, ", ");
    filter.append(list.as_str());
    filter.append("]");
    filter
}

/// The filter expression that admits the documents of `target` in one of
/// `langs` and, where one is named, of the genre.
pub open spec fn filter_clause(
    target: SearchTarget,
    langs: Seq<Seq<char>>,
    genre: Option<i32>,
) -> Seq<char> {
    lang_clause(target.lang_field(), langs) + genre_clause(genre)
}

/// Writes the filter expression that admits the documents of `target` in
/// one of `allowed_langs` and, where one is named, of the genre.
pub fn filter_expression(
    target: SearchTarget,
    allowed_langs: &Vec<String>,
    genre: Option<i32>,
) -> (text: String)
    ensures
        text@ == filter_clause(target, allowed_langs.deep_view(), genre),
{
    let mut text = lang_filter(target.lang_field_name(), allowed_langs);
    let ghost langs = text@;
    match genre {
        Some(id) => {
            text.append(" AND genres = ");
            let number = decimal_text(id as i64);
            text.append(number.as_str());
            assert(text@ =~= langs + (" AND genres = "@ + decimal(id as int)));
        },
        None => {
            assert(text@ =~= langs + Seq::<char>::empty());
        },
    }
    text
}

/// Writes the filter expression for the book that is drawn for `filter`:
/// one of its languages and, where it names one, its genre.
pub fn random_book_filter(filter: &RandomBookFilter) -> (text: String)
    ensures
        text@ == filter_clause(SearchTarget::Books, filter.allowed_langs.deep_view(), filter.genre),
{
    filter_expression(SearchTarget::Books, &filter.allowed_langs, filter.genre)
}

/// The request for the page `pagination` of the documents of `target`
/// that match `query` in one of `allowed_langs` and, where one is named,
/// in the genre.
pub open spec fn page_request(
    target: SearchTarget,
    query: Seq<char>,
    allowed_langs: Seq<Seq<char>>,
    genre: Option<i32>,
    pagination: Pagination,
) -> SearchRequestView {
    SearchRequestView {
        index: target.index(),
        query: Some(query),
        filter: filter_clause(target, allowed_langs, genre),
        offset: page_offset(pagination.page as int, pagination.size as int) as usize,
        limit: pagination.size as usize,
    }
}

/// Makes the one request of a text search: the query, the filter on the
/// languages and on the genre where one is named, and the window of the
/// page. `None` when the page cannot be asked of the search service.
pub fn search_request(
    target: SearchTarget,
    query: &String,
    allowed_langs: &Vec<String>,
    genre: Option<i32>,
    pagination: &Pagination,
) -> (request: Option<SearchRequest>)
    ensures
        request is Some <==> pagination.fits(),
        request matches Some(r) ==> r@ == page_request(
            target,
            query@,
            allowed_langs.deep_view(),
            genre,
            *pagination,
        ),
{
    match pagination.window() {
        None => None,
        Some((offset, limit)) => {
            Some(
                SearchRequest {
                    index: String::from_str(target.index_name()),
                    query: Some(query.clone()),
                    filter: filter_expression(target, allowed_langs, genre),
                    offset,
                    limit,
                },
            )
        },
    }
}

/// Makes the page of a text search: the rows that the store returned, put
/// into the rank that the search service gave their ids, under the total
/// that the search service estimated. A listed id without a row is left
/// out without complaint, and the total still counts it. Where the store
/// returned at most one row for an id and the search service listed no
/// more ids than a full page has, the page holds no more than that.
pub fn search_page<T: GetId>(
    ids: &Vec<i32>,
    estimated_total: usize,
    rows: Vec<T>,
    pagination: &Pagination,
) -> (page: Page<T>)
    requires
        pagination.wf(),
        estimated_total <= i64::MAX,
    ensures
        page.items@ == in_rank_order(ids@, rows@),
        page.total == estimated_total,
        page.page == pagination.page,
        page.size == pagination.size,
        page.pages == page_count(estimated_total as int, pagination.size as int),
        page.wf(),
        page.items.len() <= rows.len(),
        distinct_ids(rows@) && ids.len() <= pagination.size ==> page.within_size(),
{
    proof {
        lemma_rank_order_len(ids@, rows@);
        if distinct_ids(rows@) {
            lemma_rank_order_within_limit(ids@, rows@);
        }
    }
    let items = order_by_rank(ids, rows);
    Page::new(items, estimated_total as i64, pagination)
}

} // verus!
