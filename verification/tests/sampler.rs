use book_catalog::authors::get_random_author;
use book_catalog::book::RandomBookFilter;
use book_catalog::books::get_random_book;
use book_catalog::error::CatalogError;
use book_catalog::sampler::{
    begin_random_item, get_random_item, step_with_offset, SampleAction, SampleEvent, SampleState,
};
use book_catalog::search::SearchRequest;
use book_catalog::sequences::get_random_sequence;

fn filter() -> String {
    "lang IN [ru, be]".to_string()
}

#[test]
fn draw_starts_by_counting() {
    let (state, action) = begin_random_item("books", &filter());
    assert_eq!(state, SampleState::Counting);
    assert_eq!(
        action,
        SampleAction::Search(SearchRequest {
            index: "books".to_string(),
            query: None,
            filter: filter(),
            offset: 0,
            limit: 0,
        })
    );
}

#[test]
fn empty_population_fails() {
    let (state, action) =
        get_random_item("books", &filter(), SampleState::Counting, &SampleEvent::Counted { estimated_total: 0 });
    assert_eq!(state, SampleState::Finished);
    assert_eq!(action, SampleAction::Fail(CatalogError::EmptyPopulation));
}

#[test]
fn second_request_uses_the_same_filter_and_asks_for_one() {
    for _ in 0..200 {
        let (state, action) = get_random_item(
            "books",
            &filter(),
            SampleState::Counting,
            &SampleEvent::Counted { estimated_total: 7 },
        );
        assert_eq!(state, SampleState::Picking);
        match action {
            SampleAction::Search(request) => {
                assert_eq!(request.filter, filter());
                assert_eq!(request.index, "books");
                assert_eq!(request.query, None);
                assert_eq!(request.limit, 1);
                assert!(request.offset < 7);
            }
            _ => panic!("a draw from a population must search"),
        }
    }
}

#[test]
fn population_of_one_draws_offset_zero() {
    let (_, action) =
        get_random_item("authors", &filter(), SampleState::Counting, &SampleEvent::Counted { estimated_total: 1 });
    assert_eq!(
        action,
        SampleAction::Search(SearchRequest {
            index: "authors".to_string(),
            query: None,
            filter: filter(),
            offset: 0,
            limit: 1,
        })
    );
}

#[test]
fn each_of_four_is_drawn_about_a_quarter_of_the_time() {
    let mut counts = [0u32; 4];
    for _ in 0..10_000 {
        let (_, action) = get_random_item(
            "books",
            &filter(),
            SampleState::Counting,
            &SampleEvent::Counted { estimated_total: 4 },
        );
        match action {
            SampleAction::Search(request) => counts[request.offset] += 1,
            _ => panic!("a draw from a population must search"),
        }
    }
    for count in counts {
        assert!(count > 2200 && count < 2800, "observed {}", count);
    }
}

#[test]
fn first_hit_is_loaded() {
    let (state, action) =
        get_random_item("books", &filter(), SampleState::Picking, &SampleEvent::Picked { ids: vec![42] });
    assert_eq!(state, SampleState::Loading { id: 42 });
    assert_eq!(action, SampleAction::Load { id: 42 });
    let (state, action) =
        get_random_item("books", &filter(), SampleState::Picking, &SampleEvent::Picked { ids: vec![8, 9] });
    assert_eq!(state, SampleState::Loading { id: 8 });
    assert_eq!(action, SampleAction::Load { id: 8 });
}

#[test]
fn no_hit_is_an_empty_population() {
    let (state, action) =
        get_random_item("books", &filter(), SampleState::Picking, &SampleEvent::Picked { ids: Vec::new() });
    assert_eq!(state, SampleState::Finished);
    assert_eq!(action, SampleAction::Fail(CatalogError::EmptyPopulation));
}

#[test]
fn found_row_is_delivered() {
    let (state, action) = get_random_item(
        "books",
        &filter(),
        SampleState::Loading { id: 42 },
        &SampleEvent::Loaded { found: true },
    );
    assert_eq!(state, SampleState::Finished);
    assert_eq!(action, SampleAction::Deliver { id: 42 });
}

#[test]
fn missing_row_is_an_inconsistency() {
    let (state, action) = get_random_item(
        "books",
        &filter(),
        SampleState::Loading { id: 42 },
        &SampleEvent::Loaded { found: false },
    );
    assert_eq!(state, SampleState::Finished);
    assert_eq!(action, SampleAction::Fail(CatalogError::Inconsistency));
}

#[test]
fn failure_of_a_collaborator_is_fatal() {
    for state in [SampleState::Counting, SampleState::Picking, SampleState::Loading { id: 1 }, SampleState::Finished] {
        let (next, action) = get_random_item("books", &filter(), state, &SampleEvent::Failed);
        assert_eq!(next, SampleState::Finished);
        assert_eq!(action, SampleAction::Fail(CatalogError::UpstreamUnavailable));
    }
}

#[test]
fn report_that_answers_nothing_is_fatal() {
    let (next, action) =
        get_random_item("books", &filter(), SampleState::Counting, &SampleEvent::Loaded { found: true });
    assert_eq!(next, SampleState::Finished);
    assert_eq!(action, SampleAction::Fail(CatalogError::UpstreamUnavailable));
    let (next, action) = get_random_item(
        "books",
        &filter(),
        SampleState::Finished,
        &SampleEvent::Counted { estimated_total: 3 },
    );
    assert_eq!(next, SampleState::Finished);
    assert_eq!(action, SampleAction::Fail(CatalogError::UpstreamUnavailable));
}

#[test]
fn step_with_given_offset_is_exact() {
    let (state, action) = step_with_offset(
        "sequences",
        &filter(),
        SampleState::Counting,
        &SampleEvent::Counted { estimated_total: 10 },
        6,
    );
    assert_eq!(state, SampleState::Picking);
    assert_eq!(
        action,
        SampleAction::Search(SearchRequest {
            index: "sequences".to_string(),
            query: None,
            filter: filter(),
            offset: 6,
            limit: 1,
        })
    );
}

#[test]
fn whole_draw_runs_to_delivery() {
    let ids = vec![11, 22, 33, 44];
    let (mut state, mut action) = begin_random_item("books", &filter());
    let mut delivered = None;
    for _ in 0..10 {
        let event = match &action {
            SampleAction::Search(request) if request.limit == 0 => {
                SampleEvent::Counted { estimated_total: ids.len() }
            }
            SampleAction::Search(request) => SampleEvent::Picked { ids: vec![ids[request.offset]] },
            SampleAction::Load { .. } => SampleEvent::Loaded { found: true },
            SampleAction::Deliver { id } => {
                delivered = Some(*id);
                break;
            }
            SampleAction::Fail(error) => panic!("the draw failed: {:?}", error),
        };
        let next = get_random_item("books", &filter(), state, &event);
        state = next.0;
        action = next.1;
    }
    assert!(ids.contains(&delivered.unwrap()));
    assert_eq!(state, SampleState::Finished);
}

#[test]
fn random_book_filters_by_language_and_genre() {
    let book_filter = RandomBookFilter { allowed_langs: vec!["ru".to_string(), "uk".to_string()], genre: Some(12) };
    let (_, action) = get_random_book(&book_filter, SampleState::Counting, &SampleEvent::Counted { estimated_total: 1 });
    assert_eq!(
        action,
        SampleAction::Search(SearchRequest {
            index: "books".to_string(),
            query: None,
            filter: "lang IN [ru, uk] AND genres = 12".to_string(),
            offset: 0,
            limit: 1,
        })
    );
}

#[test]
fn random_author_and_sequence_filter_by_their_language_fields() {
    let langs = vec!["ru".to_string()];
    let (_, action) = get_random_author(&langs, SampleState::Counting, &SampleEvent::Counted { estimated_total: 1 });
    match action {
        SampleAction::Search(request) => {
            assert_eq!(request.index, "authors");
            assert_eq!(request.filter, "author_langs IN [ru]");
        }
        _ => panic!("a draw from a population must search"),
    }
    let (_, action) = get_random_sequence(&langs, SampleState::Counting, &SampleEvent::Counted { estimated_total: 1 });
    match action {
        SampleAction::Search(request) => {
            assert_eq!(request.index, "sequences");
            assert_eq!(request.filter, "langs IN [ru]");
        }
        _ => panic!("a draw from a population must search"),
    }
}
