//! Tests of the sanitizer, the search, the path-walking resolver, the
//! response shaper and the room-existence check.
use fenix_rooms::resolve::{
    classify_fetch, resolve_path, search_contained_spaces, split_path, PathResolver,
    ResolutionResult, ResolveAction, SearchResult,
};
use fenix_rooms::sanitize::sanitize_string;
use fenix_rooms::spaces::{shape_response, Capacity, ContainedSpace, GenericSpace, ShapedResponse};
use fenix_rooms::upstream::{is_room, UpstreamResponse};

fn child(id: &str, name: &str) -> ContainedSpace {
    ContainedSpace { id: id.to_string(), name: name.to_string() }
}

fn body(status: u16, text: &str) -> UpstreamResponse {
    UpstreamResponse::Body { status, body: text.to_string() }
}

fn norte_sul() -> Vec<ContainedSpace> {
    vec![child("1", "Norte"), child("2", "Sul")]
}

#[test]
fn sanitize_is_idempotent_on_samples() {
    for sample in [
        "",
        "\u{c1}trio",
        "Sala 1/2",
        "Pavilh\u{e3}o Central",
        "already-sane_1",
        "A\u{c7}\u{d5}ES / Mistas",
    ] {
        let once = sanitize_string(sample);
        let twice = sanitize_string(&once);
        assert_eq!(twice, once);
    }
}

#[test]
fn sanitize_folds_case_and_diacritics() {
    assert_eq!(sanitize_string("\u{c1}trio"), "atrio");
    assert_eq!(sanitize_string("atrio"), "atrio");
    assert_eq!(sanitize_string("Sala 1/2"), "sala-1_2");
}

#[test]
fn sanitize_folds_every_table_entry() {
    assert_eq!(
        sanitize_string("\u{e1}\u{e0}\u{e3}\u{e2}\u{e9}\u{ea}\u{ed}\u{f3}\u{f4}\u{f5}\u{fa}\u{e7}"),
        "aaaaeeiooouc"
    );
    assert_eq!(
        sanitize_string("\u{c1}\u{c0}\u{c3}\u{c2}\u{c9}\u{ca}\u{cd}\u{d3}\u{d4}\u{d5}\u{da}\u{c7}"),
        "aaaaeeiooouc"
    );
    // A character outside the table passes through unchanged.
    assert_eq!(sanitize_string("\u{fc}"), "\u{fc}");
}

#[test]
fn search_finds_exact_match_by_sanitized_name() {
    let result = search_contained_spaces("norte", &norte_sul());
    assert_eq!(result, SearchResult::Found("1".to_string()));
}

#[test]
fn search_reports_not_found_without_any_fetch() {
    let result = search_contained_spaces("leste", &norte_sul());
    assert_eq!(result, SearchResult::NotFound("leste".to_string()));
}

#[test]
fn search_takes_first_match_and_skips_empty_names() {
    let candidates = vec![child("9", ""), child("1", "Norte"), child("2", "norte")];
    let result = search_contained_spaces("NORTE", &candidates);
    assert_eq!(result, SearchResult::Found("1".to_string()));
}

#[test]
fn search_with_empty_id_match_is_not_found() {
    let candidates = vec![child("", "Norte"), child("2", "Norte")];
    let result = search_contained_spaces("norte", &candidates);
    assert_eq!(result, SearchResult::NotFound("norte".to_string()));
}

#[test]
fn resolver_walks_one_segment() {
    let mut resolver = PathResolver::start(vec!["norte".to_string()], norte_sul());
    match resolver.next_action() {
        ResolveAction::Fetch(id) => assert_eq!(id, "1"),
        other => panic!("expected a fetch, got {:?}", other),
    }
    resolver.record_fetch(&body(
        200,
        "{\"name\": \"Norte\", \"containedSpaces\": [], \"capacity\": {\"normal\": 5}}",
    ));
    match resolver.next_action() {
        ResolveAction::Done(ResolutionResult::Found(node)) => {
            assert_eq!(node.name, "Norte");
            assert!(node.contained_spaces.is_empty());
            assert_eq!(node.capacity, Some(Capacity { normal: 5 }));
        }
        other => panic!("expected a found node, got {:?}", other),
    }
}

#[test]
fn resolver_short_circuits_on_unmatched_segment() {
    let segments = vec!["norte".to_string(), "nonexistent".to_string(), "anything".to_string()];
    let mut resolver = PathResolver::start(segments, norte_sul());
    let mut fetches: usize = 0;

    // First segment matches and asks for one fetch.
    match resolver.next_action() {
        ResolveAction::Fetch(id) => {
            assert_eq!(id, "1");
            fetches += 1;
            resolver.record_fetch(&body(
                200,
                "{\"name\": \"Norte\", \"containedSpaces\": [{\"id\": \"11\", \"name\": \"Sala\"}]}",
            ));
        }
        other => panic!("expected a fetch, got {:?}", other),
    }

    // Second segment has no match: the walk ends at once, the third segment
    // is never looked at and no further fetch is asked for.
    match resolver.next_action() {
        ResolveAction::Done(r) => {
            assert_eq!(r, ResolutionResult::NotFound("nonexistent".to_string()));
        }
        ResolveAction::Fetch(id) => panic!("unexpected fetch of {}", id),
    }
    assert_eq!(fetches, 1);
}

#[test]
fn resolver_stops_on_upstream_failure() {
    let mut resolver = PathResolver::start(vec!["norte".to_string()], norte_sul());
    assert!(matches!(resolver.next_action(), ResolveAction::Fetch(_)));
    resolver.record_fetch(&body(503, "irrelevant"));
    match resolver.next_action() {
        ResolveAction::Done(r) => {
            assert_eq!(r, ResolutionResult::UpstreamError("Fenix had an error".to_string()));
        }
        other => panic!("expected a done walk, got {:?}", other),
    }
}

#[test]
fn resolver_with_empty_path_returns_the_root_wrapper() {
    let resolver = PathResolver::start(Vec::new(), norte_sul());
    match resolver.next_action() {
        ResolveAction::Done(ResolutionResult::Found(node)) => {
            assert_eq!(node.name, "");
            assert_eq!(node.contained_spaces, norte_sul());
            assert_eq!(node.capacity, None);
        }
        other => panic!("expected the root wrapper, got {:?}", other),
    }
}

#[test]
fn classify_labels_each_failure_kind() {
    assert_eq!(
        classify_fetch(&body(200, "not json at all")),
        ResolutionResult::MalformedData
    );
    assert_eq!(
        classify_fetch(&body(404, "")),
        ResolutionResult::UpstreamError("Fenix had an error".to_string())
    );
    assert_eq!(
        classify_fetch(&UpstreamResponse::Transport("connection refused".to_string())),
        ResolutionResult::UpstreamError("connection refused".to_string())
    );
    assert_eq!(
        classify_fetch(&UpstreamResponse::ReadFailed {
            status: 200,
            error: "closed early".to_string()
        }),
        ResolutionResult::UpstreamError("closed early".to_string())
    );
}

#[test]
fn shaper_keeps_a_leaf_room_whole() {
    let room = GenericSpace {
        name: "Sala".to_string(),
        contained_spaces: Vec::new(),
        capacity: Some(Capacity { normal: 30 }),
    };
    let expected = GenericSpace {
        name: "Sala".to_string(),
        contained_spaces: Vec::new(),
        capacity: Some(Capacity { normal: 30 }),
    };
    assert_eq!(shape_response(room), ShapedResponse::Full(expected));
}

#[test]
fn shaper_collapses_a_container_to_its_children() {
    let x = child("1", "Norte");
    let y = child("2", "Sul");
    let container = GenericSpace {
        name: "Campus".to_string(),
        contained_spaces: vec![x, y],
        capacity: None,
    };
    assert_eq!(
        shape_response(container),
        ShapedResponse::Children(vec![child("1", "Norte"), child("2", "Sul")])
    );
}

#[test]
fn room_check_fails_closed_on_malformed_body() {
    assert_eq!(is_room(&body(200, "{ not json")), Ok(false));
}

#[test]
fn room_check_accepts_a_leaf_and_refuses_the_rest() {
    let leaf = "{\"name\": \"Sala\", \"containedSpaces\": [], \"capacity\": {\"normal\": 12}}";
    let tree = "{\"name\": \"Campus\", \"containedSpaces\": [{\"id\": \"2\", \"name\": \"Sul\"}]}";
    assert_eq!(is_room(&body(200, leaf)), Ok(true));
    assert_eq!(is_room(&body(404, leaf)), Ok(false));
    assert_eq!(is_room(&body(200, tree)), Ok(false));
    assert_eq!(
        is_room(&UpstreamResponse::Transport("timed out".to_string())),
        Err("timed out".to_string())
    );
    assert_eq!(
        is_room(&UpstreamResponse::ReadFailed { status: 200, error: "no data".to_string() }),
        Err("no data".to_string())
    );
}

#[test]
fn chained_resolution_walks_two_levels() {
    let segments = vec!["alameda".to_string(), "pavilhao central".to_string()];
    let responses = vec![
        body(
            200,
            "{\"name\": \"Alameda\", \"containedSpaces\": [{\"id\": \"B\", \"name\": \"Pavilh\u{e3}o Central\"}]}",
        ),
        body(
            200,
            "{\"name\": \"Pavilh\u{e3}o Central\", \"containedSpaces\": [], \"capacity\": {\"normal\": 40}}",
        ),
    ];
    let result = resolve_path(segments, vec![child("A", "Alameda")], &responses);
    match result {
        ResolutionResult::Found(node) => {
            assert_eq!(node.name, "Pavilh\u{e3}o Central");
            assert_eq!(node.capacity, Some(Capacity { normal: 40 }));
        }
        other => panic!("expected the room, got {:?}", other),
    }
}

#[test]
fn chained_resolution_never_consults_anything_past_a_failure() {
    let segments = vec!["norte".to_string(), "nonexistent".to_string(), "anything".to_string()];
    // Whatever stands after the failing segment's level is never fetched:
    // garbage responses there cannot change the outcome.
    let responses = vec![
        body(
            200,
            "{\"name\": \"Norte\", \"containedSpaces\": [{\"id\": \"11\", \"name\": \"Sala\"}]}",
        ),
        body(200, "garbage"),
        body(503, "garbage"),
    ];
    let result = resolve_path(segments, norte_sul(), &responses);
    assert_eq!(result, ResolutionResult::NotFound("nonexistent".to_string()));
}

#[test]
fn split_path_cuts_on_slashes() {
    assert_eq!(split_path("a/b/c"), vec!["a", "b", "c"]);
    assert_eq!(split_path("alameda"), vec!["alameda"]);
    assert_eq!(split_path(""), vec![""]);
    assert_eq!(split_path("a//b"), vec!["a", "", "b"]);
    assert_eq!(split_path("/a"), vec!["", "a"]);
}
