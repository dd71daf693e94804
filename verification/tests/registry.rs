use build_query::BuildMode;
use build_query::QueryCategory;
use build_query::QueryError;
use build_query::TargetKind;

#[test]
fn parse_accepts_every_category_name() {
    assert!(matches!(QueryCategory::parse("binaries"), Some(QueryCategory::Binaries)));
    assert!(matches!(QueryCategory::parse("examples"), Some(QueryCategory::Examples)));
    assert!(matches!(QueryCategory::parse("tests"), Some(QueryCategory::Tests)));
    assert!(matches!(QueryCategory::parse("benches"), Some(QueryCategory::Benches)));
    assert!(matches!(QueryCategory::parse("features"), Some(QueryCategory::Features)));
    assert!(matches!(QueryCategory::parse("profile"), Some(QueryCategory::Profile)));
}

#[test]
fn parse_ignores_ascii_case() {
    assert!(matches!(QueryCategory::parse("Binaries"), Some(QueryCategory::Binaries)));
    assert!(matches!(QueryCategory::parse("TESTS"), Some(QueryCategory::Tests)));
    assert!(matches!(QueryCategory::parse("pRoFiLe"), Some(QueryCategory::Profile)));
    assert!(matches!(QueryCategory::parse("fEATURES"), Some(QueryCategory::Features)));
}

#[test]
fn parse_rejects_unknown_tokens() {
    assert!(QueryCategory::parse("").is_none());
    assert!(QueryCategory::parse("binary").is_none());
    assert!(QueryCategory::parse("profiles").is_none());
    assert!(QueryCategory::parse("tests ").is_none());
    assert!(QueryCategory::parse("bench").is_none());
}

#[test]
fn name_spells_each_category() {
    assert_eq!(QueryCategory::Binaries.name(), "binaries");
    assert_eq!(QueryCategory::Examples.name(), "examples");
    assert_eq!(QueryCategory::Tests.name(), "tests");
    assert_eq!(QueryCategory::Benches.name(), "benches");
    assert_eq!(QueryCategory::Features.name(), "features");
    assert_eq!(QueryCategory::Profile.name(), "profile");
}

#[test]
fn only_features_allows_multi_select() {
    assert!(QueryCategory::Features.allows_multi());
    assert!(!QueryCategory::Binaries.allows_multi());
    assert!(!QueryCategory::Examples.allows_multi());
    assert!(!QueryCategory::Tests.allows_multi());
    assert!(!QueryCategory::Benches.allows_multi());
    assert!(!QueryCategory::Profile.allows_multi());
}

#[test]
fn implied_build_mode_per_category() {
    assert_eq!(QueryCategory::Binaries.implied_build_mode(), Ok(BuildMode::Build));
    assert_eq!(QueryCategory::Examples.implied_build_mode(), Ok(BuildMode::Build));
    assert_eq!(QueryCategory::Profile.implied_build_mode(), Ok(BuildMode::Build));
    assert_eq!(QueryCategory::Tests.implied_build_mode(), Ok(BuildMode::Test));
    assert_eq!(QueryCategory::Benches.implied_build_mode(), Ok(BuildMode::Bench));
}

#[test]
fn features_build_mode_fails_fast() {
    assert_eq!(
        QueryCategory::Features.implied_build_mode(),
        Err(QueryError::UnsupportedCategory)
    );
}

#[test]
fn membership_predicate_per_target_category() {
    assert_eq!(QueryCategory::Binaries.matches_kind(&TargetKind::Binary), Ok(true));
    assert_eq!(QueryCategory::Binaries.matches_kind(&TargetKind::Example), Ok(false));
    assert_eq!(QueryCategory::Binaries.matches_kind(&TargetKind::Library), Ok(false));
    assert_eq!(QueryCategory::Examples.matches_kind(&TargetKind::Example), Ok(true));
    assert_eq!(QueryCategory::Examples.matches_kind(&TargetKind::Binary), Ok(false));
    assert_eq!(QueryCategory::Tests.matches_kind(&TargetKind::Test), Ok(true));
    assert_eq!(QueryCategory::Tests.matches_kind(&TargetKind::Bench), Ok(false));
    assert_eq!(QueryCategory::Benches.matches_kind(&TargetKind::Bench), Ok(true));
    assert_eq!(QueryCategory::Benches.matches_kind(&TargetKind::BuildScript), Ok(false));
}

#[test]
fn membership_predicate_undefined_for_features_and_profile() {
    assert_eq!(
        QueryCategory::Features.matches_kind(&TargetKind::Binary),
        Err(QueryError::UnsupportedCategory)
    );
    assert_eq!(
        QueryCategory::Profile.matches_kind(&TargetKind::Binary),
        Err(QueryError::UnsupportedCategory)
    );
}

#[test]
fn all_lists_the_six_categories_in_order() {
    let all = QueryCategory::all();
    assert_eq!(all.len(), 6);
    assert_eq!(all[0], QueryCategory::Binaries);
    assert_eq!(all[1], QueryCategory::Examples);
    assert_eq!(all[2], QueryCategory::Tests);
    assert_eq!(all[3], QueryCategory::Benches);
    assert_eq!(all[4], QueryCategory::Features);
    assert_eq!(all[5], QueryCategory::Profile);
}

#[test]
fn parse_round_trips_every_category_name() {
    for c in QueryCategory::all() {
        assert_eq!(QueryCategory::parse(c.name()), Some(c));
        assert_eq!(QueryCategory::parse(&c.name().to_uppercase()), Some(c));
    }
}

#[test]
fn error_messages_are_single_lines() {
    assert_eq!(QueryError::UnsupportedCategory.message(), "unsupported query category");
    assert_eq!(QueryError::Cancelled.message(), "selection cancelled");
    assert_eq!(QueryError::InternalUIError.message(), "interactive picker failed");
    assert_eq!(
        QueryError::InvariantViolation.message(),
        "internal selection invariant violated"
    );
    for e in [
        QueryError::UnsupportedCategory,
        QueryError::Cancelled,
        QueryError::InternalUIError,
        QueryError::InvariantViolation,
    ] {
        assert!(!e.message().contains('\n'));
        assert!(!e.message().is_empty());
    }
}
