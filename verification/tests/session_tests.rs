use build_query::PickerEvent;
use build_query::PickerRequest;
use build_query::QueryCategory;
use build_query::QueryError;
use build_query::SelectionOutcome;
use build_query::resolve_outcome;

#[test]
fn picker_request_serialises_candidates_line_by_line() {
    let candidates = vec!["server".to_string(), "client".to_string(), "tool".to_string()];
    let r = PickerRequest::new(&QueryCategory::Binaries, &candidates);
    assert_eq!(r.input, "server\nclient\ntool");
    assert_eq!(r.prompt, "Choose binaries> ");
    assert!(!r.allows_multi);
    assert_eq!(r.height, 9);
}

#[test]
fn picker_request_for_one_candidate_has_no_separator() {
    let candidates = vec!["dev".to_string()];
    let r = PickerRequest::new(&QueryCategory::Profile, &candidates);
    assert_eq!(r.input, "dev");
    assert_eq!(r.prompt, "Choose profile> ");
    assert_eq!(r.height, 3);
}

#[test]
fn picker_request_for_empty_catalog_is_empty() {
    let candidates: Vec<String> = vec![];
    let r = PickerRequest::new(&QueryCategory::Binaries, &candidates);
    assert_eq!(r.input, "");
    assert_eq!(r.height, 0);
}

#[test]
fn picker_request_multi_flag_follows_category() {
    let candidates = vec!["tls".to_string(), "json".to_string()];
    let r = PickerRequest::new(&QueryCategory::Features, &candidates);
    assert!(r.allows_multi);
    assert_eq!(r.input, "tls\njson");
    assert_eq!(r.prompt, "Choose features> ");
}

#[test]
fn failed_picker_is_an_internal_error_not_an_abort() {
    let r = resolve_outcome(&QueryCategory::Binaries, PickerEvent::Failed);
    assert!(matches!(r, Err(QueryError::InternalUIError)));
}

#[test]
fn abort_resolves_to_aborted() {
    let r = resolve_outcome(&QueryCategory::Binaries, PickerEvent::Aborted);
    assert!(matches!(r, Ok(SelectionOutcome::Aborted)));
}

#[test]
fn accepting_nothing_resolves_to_aborted() {
    let r = resolve_outcome(&QueryCategory::Binaries, PickerEvent::Accepted(vec![]));
    assert!(matches!(r, Ok(SelectionOutcome::Aborted)));
}

#[test]
fn single_select_keeps_only_the_first_committed_line() {
    let event = PickerEvent::Accepted(vec!["server".to_string(), "client".to_string()]);
    let r = resolve_outcome(&QueryCategory::Binaries, event);
    match r {
        Ok(SelectionOutcome::Accepted(items)) => {
            assert_eq!(items, vec!["server".to_string()]);
        }
        _ => panic!("expected an accepted outcome"),
    }
}

#[test]
fn multi_select_keeps_every_line_in_order() {
    let event = PickerEvent::Accepted(vec!["tls".to_string(), "json".to_string()]);
    let r = resolve_outcome(&QueryCategory::Features, event);
    match r {
        Ok(SelectionOutcome::Accepted(items)) => {
            assert_eq!(items, vec!["tls".to_string(), "json".to_string()]);
        }
        _ => panic!("expected an accepted outcome"),
    }
}
