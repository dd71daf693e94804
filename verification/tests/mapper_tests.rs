use build_query::BuildMode;
use build_query::QueryCategory;
use build_query::QueryError;
use build_query::SelectionOutcome;
use build_query::dispatch_outcome;
use build_query::format_outcome;
use build_query::join_all;

fn accepted(items: &[&str]) -> SelectionOutcome {
    SelectionOutcome::Accepted(items.iter().map(|s| s.to_string()).collect())
}

#[test]
fn abort_formats_as_cancelled() {
    for c in QueryCategory::all() {
        let r = format_outcome(&SelectionOutcome::Aborted, &c);
        assert_eq!(r, Err(QueryError::Cancelled));
    }
}

#[test]
fn sole_choice_passes_through_unmodified() {
    let r = format_outcome(&accepted(&["client"]), &QueryCategory::Binaries);
    assert_eq!(r, Ok("client".to_string()));
    let p = format_outcome(&accepted(&["release"]), &QueryCategory::Profile);
    assert_eq!(p, Ok("release".to_string()));
}

#[test]
fn features_choices_join_with_commas_in_order() {
    let r = format_outcome(&accepted(&["tls", "json"]), &QueryCategory::Features);
    assert_eq!(r, Ok("tls,json".to_string()));
    let one = format_outcome(&accepted(&["tls"]), &QueryCategory::Features);
    assert_eq!(one, Ok("tls".to_string()));
}

#[test]
fn cardinality_violations_are_internal_errors() {
    let several = format_outcome(&accepted(&["a", "b"]), &QueryCategory::Binaries);
    assert_eq!(several, Err(QueryError::InvariantViolation));
    let none = format_outcome(&accepted(&[]), &QueryCategory::Features);
    assert_eq!(none, Err(QueryError::InvariantViolation));
}

#[test]
fn dispatch_pairs_choice_with_implied_build_mode() {
    let r = dispatch_outcome(&accepted(&["client"]), &QueryCategory::Binaries);
    assert_eq!(r, Ok((BuildMode::Build, "client".to_string())));
    let t = dispatch_outcome(&accepted(&["integration"]), &QueryCategory::Tests);
    assert_eq!(t, Ok((BuildMode::Test, "integration".to_string())));
    let b = dispatch_outcome(&accepted(&["speed"]), &QueryCategory::Benches);
    assert_eq!(b, Ok((BuildMode::Bench, "speed".to_string())));
}

#[test]
fn dispatch_refuses_features_and_aborts() {
    let f = dispatch_outcome(&accepted(&["tls"]), &QueryCategory::Features);
    assert_eq!(f, Err(QueryError::UnsupportedCategory));
    let a = dispatch_outcome(&SelectionOutcome::Aborted, &QueryCategory::Binaries);
    assert_eq!(a, Err(QueryError::Cancelled));
    let many = dispatch_outcome(&accepted(&["a", "b"]), &QueryCategory::Binaries);
    assert_eq!(many, Err(QueryError::InvariantViolation));
}

#[test]
fn join_all_matches_expected_text() {
    let parts = vec!["a".to_string(), "b".to_string(), "c".to_string()];
    assert_eq!(join_all(&parts, ","), "a,b,c");
    assert_eq!(join_all(&parts, "\n"), "a\nb\nc");
    let empty: Vec<String> = vec![];
    assert_eq!(join_all(&empty, ","), "");
    let one = vec!["solo".to_string()];
    assert_eq!(join_all(&one, ","), "solo");
}
