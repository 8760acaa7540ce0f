//! The uniform random sampler: one entity drawn from those that match a
//! filter, in two requests to the search service and one lookup in the
//! store.
//!
//! The sampler decides; its caller talks to the collaborators. The caller
//! starts with `begin_random_item`, performs the action it is handed,
//! reports what came of it to `get_random_item`, and goes on until it is
//! handed `Deliver` or `Fail`.

use crate::error::CatalogError;
use crate::search::SearchRequest;
use crate::search::SearchRequestView;
use rand::Rng;
use vstd::prelude::*;

verus! {

/// How far a draw has come.
#[derive(Clone, Copy, Debug, PartialEq, Eq, Structural)]
pub enum SampleState {
    /// The request for the size of the population is out.
    Counting,
    /// The request for the one hit at the drawn offset is out.
    Picking,
    /// The lookup of the drawn id in the store is out.
    Loading { id: i32 },
    /// The draw has ended.
    Finished,
}

/// What the caller reports of the action it performed.
#[derive(Debug, PartialEq, Eq)]
pub enum SampleEvent {
    /// The search service answered, and estimates this many matches.
    Counted { estimated_total: usize },
    /// The search service answered with these ids, best first.
    Picked { ids: Vec<i32> },
    /// The store answered; `found` tells whether it holds the row.
    Loaded { found: bool },
    /// A collaborator could not be reached or refused the query.
    Failed,
}

/// What a `SampleEvent` holds.
pub enum SampleEventView {
    Counted { estimated_total: usize },
    Picked { ids: Seq<i32> },
    Loaded { found: bool },
    Failed,
}

impl View for SampleEvent {
    type V = SampleEventView;

    open spec fn view(&self) -> SampleEventView {
        match *self {
            SampleEvent::Counted { estimated_total } => SampleEventView::Counted {
                estimated_total,
            },
            SampleEvent::Picked { ids } => SampleEventView::Picked { ids: ids@ },
            SampleEvent::Loaded { found } => SampleEventView::Loaded { found },
            SampleEvent::Failed => SampleEventView::Failed,
        }
    }
}

/// What the caller is to do next.
#[derive(Debug, PartialEq, Eq)]
pub enum SampleAction {
    /// Send this request to the search service.
    Search(SearchRequest),
    /// Look this id up in the store.
    Load { id: i32 },
    /// The draw is done: serve the entity of this id.
    Deliver { id: i32 },
    /// The draw has failed.
    Fail(CatalogError),
}

/// What a `SampleAction` holds.
pub enum SampleActionView {
    Search(SearchRequestView),
    Load { id: i32 },
    Deliver { id: i32 },
    Fail(CatalogError),
}

impl View for SampleAction {
    type V = SampleActionView;

    open spec fn view(&self) -> SampleActionView {
        match *self {
            SampleAction::Search(request) => SampleActionView::Search(request@),
            SampleAction::Load { id } => SampleActionView::Load { id },
            SampleAction::Deliver { id } => SampleActionView::Deliver { id },
            SampleAction::Fail(error) => SampleActionView::Fail(error),
        }
    }
}

/// The request that asks how many documents of `index` match `filter`: it
/// asks for no hit, only for the estimate.
pub open spec fn count_request(index: Seq<char>, filter: Seq<char>) -> SearchRequestView {
    SearchRequestView { index, query: None, filter, offset: 0, limit: 0 }
}

/// The request that asks for the one document of `index` that stands at
/// `offset` among those that match `filter`.
pub open spec fn pick_request(
    index: Seq<char>,
    filter: Seq<char>,
    offset: usize,
) -> SearchRequestView {
    SearchRequestView { index, query: None, filter, offset, limit: 1 }
}

/// What follows from `event` in `state` when `drawn` is the offset that
/// was drawn. A population of zero ends the draw as an empty population.
/// So does an answer without a hit: the population has shrunk since it was
/// counted. A drawn id that the store does not hold ends the draw as an
/// inconsistency, since no other candidate was fetched. A failure of a
/// collaborator, and a report that does not answer the action that is out,
/// end it as an unavailable upstream.
pub open spec fn sample_step(
    index: Seq<char>,
    filter: Seq<char>,
    state: SampleState,
    event: SampleEventView,
    drawn: usize,
) -> (SampleState, SampleActionView) {
    match (state, event) {
        (SampleState::Counting, SampleEventView::Counted { estimated_total }) => {
            if estimated_total == 0 {
                (SampleState::Finished, SampleActionView::Fail(CatalogError::EmptyPopulation))
            } else {
                (
                    SampleState::Picking,
                    SampleActionView::Search(pick_request(index, filter, drawn)),
                )
            }
        },
        (SampleState::Picking, SampleEventView::Picked { ids }) => {
            if ids.len() == 0 {
                (SampleState::Finished, SampleActionView::Fail(CatalogError::EmptyPopulation))
            } else {
                (SampleState::Loading { id: ids[0] }, SampleActionView::Load { id: ids[0] })
            }
        },
        (SampleState::Loading { id }, SampleEventView::Loaded { found }) => {
            if found {
                (SampleState::Finished, SampleActionView::Deliver { id })
            } else {
                (SampleState::Finished, SampleActionView::Fail(CatalogError::Inconsistency))
            }
        },
        _ => (SampleState::Finished, SampleActionView::Fail(CatalogError::UpstreamUnavailable)),
    }
}

/// Whether `event` in `state` calls for an offset to be drawn: the
/// population has been counted and is not empty.
pub open spec fn draws(state: SampleState, event: SampleEventView) -> bool {
    &&& state is Counting
    &&& event matches SampleEventView::Counted { estimated_total }
    &&& estimated_total > 0
}

/// Whether `next` is what one step of a draw may hand out for `event` in
/// `state`: where an offset is drawn, the step that follows from some
/// offset below the estimate; otherwise the one step that follows from the
/// state and the event.
pub open spec fn stepped(
    index: Seq<char>,
    filter: Seq<char>,
    state: SampleState,
    event: SampleEventView,
    next: (SampleState, SampleActionView),
) -> bool {
    if draws(state, event) {
        exists|drawn: usize|
            drawn < event->Counted_estimated_total && next == #[trigger] sample_step(
                index,
                filter,
                state,
                event,
                drawn,
            )
    } else {
        next == sample_step(index, filter, state, event, 0)
    }
}

/// Calls `rand::rng().random_range(0..bound)`: a number drawn from the
/// thread's generator. Claimed of it: the number is below `bound`. The
/// call panics on an empty range, which the precondition leaves out.
#[verifier::external_body]
fn draw_below(bound: usize) -> (drawn: usize)
    requires
        bound > 0,
    ensures
        drawn < bound,
{
    rand::rng().random_range(0..bound)
}

/// Starts a draw among the documents of `index` that match `filter`: the
/// first action asks the search service how many there are.
pub fn begin_random_item(index: &str, filter: &String) -> (start: (SampleState, SampleAction))
    ensures
        start.0 == SampleState::Counting,
        start.1@ == SampleActionView::Search(count_request(index@, filter@)),
{
    let request = SearchRequest {
        index: String::from_str(index),
        query: None,
        filter: filter.clone(),
        offset: 0,
        limit: 0,
    };
    (SampleState::Counting, SampleAction::Search(request))
}

/// One step of a draw for which the offset has been drawn already.
pub fn step_with_offset(
    index: &str,
    filter: &String,
    state: SampleState,
    event: &SampleEvent,
    drawn: usize,
) -> (next: (SampleState, SampleAction))
    ensures
        (next.0, next.1@) == sample_step(index@, filter@, state, event@, drawn),
{
    match (state, event) {
        (SampleState::Counting, SampleEvent::Counted { estimated_total }) => {
            if *estimated_total == 0 {
                (SampleState::Finished, SampleAction::Fail(CatalogError::EmptyPopulation))
            } else {
                let request = SearchRequest {
                    index: String::from_str(index),
                    query: None,
                    filter: filter.clone(),
                    offset: drawn,
                    limit: 1,
                };
                (SampleState::Picking, SampleAction::Search(request))
            }
        },
        (SampleState::Picking, SampleEvent::Picked { ids }) => {
            if ids.len() == 0 {
                (SampleState::Finished, SampleAction::Fail(CatalogError::EmptyPopulation))
            } else {
                let id = ids[0];
                (SampleState::Loading { id }, SampleAction::Load { id })
            }
        },
        (SampleState::Loading { id }, SampleEvent::Loaded { found }) => {
            if *found {
                (SampleState::Finished, SampleAction::Deliver { id })
            } else {
                (SampleState::Finished, SampleAction::Fail(CatalogError::Inconsistency))
            }
        },
        _ => (SampleState::Finished, SampleAction::Fail(CatalogError::UpstreamUnavailable)),
    }
}

/// One step of a draw among the documents of `index` that match `filter`.
/// Where the population has been counted and is not empty, an offset is
/// drawn below the estimate, and the next request asks for the one hit at
/// that offset under the same filter. Every other step is decided by the
/// state and the event alone.
pub fn get_random_item(
    index: &str,
    filter: &String,
    state: SampleState,
    event: &SampleEvent,
) -> (next: (SampleState, SampleAction))
    ensures
        stepped(index@, filter@, state, event@, (next.0, next.1@)),
{
    let drawn: usize = match (state, event) {
        (SampleState::Counting, SampleEvent::Counted { estimated_total }) => {
            if *estimated_total > 0 {
                draw_below(*estimated_total)
            } else {
                0
            }
        },
        _ => 0,
    };
    step_with_offset(index, filter, state, event, drawn)
}

/// Both requests of a draw carry the same filter and go to the same
/// index; the second asks for exactly one hit, at the drawn offset.
pub proof fn lemma_draw_keeps_filter(
    index: Seq<char>,
    filter: Seq<char>,
    estimated_total: usize,
    drawn: usize,
)
    requires
        0 < estimated_total,
        drawn < estimated_total,
    ensures
        sample_step(
            index,
            filter,
            SampleState::Counting,
            SampleEventView::Counted { estimated_total },
            drawn,
        ).1 matches SampleActionView::Search(pick) && pick.filter == count_request(
            index,
            filter,
        ).filter && pick.index == count_request(index, filter).index && pick.limit == 1
            && pick.offset == drawn && pick.offset < estimated_total,
{
}

/// A draw ends when, and only when, the caller is handed `Deliver` or
/// `Fail`; until then it is handed the action whose answer the next state
/// waits for.
pub proof fn lemma_step_outcomes(
    index: Seq<char>,
    filter: Seq<char>,
    state: SampleState,
    event: SampleEventView,
    drawn: usize,
)
    ensures
        ({
            let (next, action) = sample_step(index, filter, state, event, drawn);
            &&& next is Finished <==> action is Deliver || action is Fail
            &&& next is Picking <==> action is Search
            &&& next is Loading <==> action is Load
            &&& next !is Counting
            &&& action matches SampleActionView::Load { id } ==> next == (SampleState::Loading {
                id,
            })
            &&& action matches SampleActionView::Deliver { id } ==> state == (
            SampleState::Loading { id })
            &&& action == SampleActionView::Fail(CatalogError::EmptyPopulation) ==> (event
                == SampleEventView::Counted { estimated_total: 0 } || (event is Picked
                && event->ids.len() == 0))
            &&& action == SampleActionView::Fail(CatalogError::Inconsistency) ==> event
                == (SampleEventView::Loaded { found: false })
        }),
{
}

} // verus!
