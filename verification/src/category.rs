use crate::errors::QueryError;
use crate::text::eq_ignore_ascii_case;
use crate::text::eq_ignore_ascii_case_spec;
use vstd::prelude::*;

verus! {

/// The closed set of query categories an operator may ask about.
///
/// Each category knows how targets are tested for membership, whether the
/// interactive session may return several choices, and which build action a
/// completed selection implies.
#[derive(Clone, Copy, Debug, PartialEq, Eq, Structural)]
pub enum QueryCategory {
    Binaries,
    Examples,
    Tests,
    Benches,
    Features,
    Profile,
}

/// The build action a completed selection is forwarded to.
#[derive(Clone, Copy, Debug, PartialEq, Eq, Structural)]
pub enum BuildMode {
    Build,
    Test,
    Bench,
}

/// The kind classification of a workspace build target.
#[derive(Clone, Copy, Debug, PartialEq, Eq, Structural)]
pub enum TargetKind {
    Binary,
    Example,
    Test,
    Bench,
    Library,
    BuildScript,
}

impl QueryCategory {
    /// The display name of the category, as the command line spells it.
    pub open spec fn label(self) -> Seq<char> {
        match self {
            QueryCategory::Binaries => "binaries"@,
            QueryCategory::Examples => "examples"@,
            QueryCategory::Tests => "tests"@,
            QueryCategory::Benches => "benches"@,
            QueryCategory::Features => "features"@,
            QueryCategory::Profile => "profile"@,
        }
    }

    pub fn name(&self) -> (r: &'static str)
        ensures
            r@ == self.label(),
    {
        match self {
            QueryCategory::Binaries => "binaries",
            QueryCategory::Examples => "examples",
            QueryCategory::Tests => "tests",
            QueryCategory::Benches => "benches",
            QueryCategory::Features => "features",
            QueryCategory::Profile => "profile",
        }
    }

    /// Only the Features category lets the operator commit several choices.
    pub open spec fn allows_multi_select(self) -> bool {
        self is Features
    }

    pub fn allows_multi(&self) -> (r: bool)
        ensures
            r == self.allows_multi_select(),
    {
        match self {
            QueryCategory::Features => true,
            _ => false,
        }
    }

    /// The build action a completed selection implies, where one is defined.
    /// Features deliberately has none: a selection of feature names must fail
    /// fast rather than default to some build action.
    pub open spec fn build_mode_of(self) -> Option<BuildMode> {
        match self {
            QueryCategory::Binaries => Some(BuildMode::Build),
            QueryCategory::Examples => Some(BuildMode::Build),
            QueryCategory::Tests => Some(BuildMode::Test),
            QueryCategory::Benches => Some(BuildMode::Bench),
            QueryCategory::Features => None,
            QueryCategory::Profile => Some(BuildMode::Build),
        }
    }

    pub fn implied_build_mode(&self) -> (r: Result<BuildMode, QueryError>)
        ensures
            match self.build_mode_of() {
                Some(m) => r == Ok::<BuildMode, QueryError>(m),
                None => r == Err::<BuildMode, QueryError>(QueryError::UnsupportedCategory),
            },
    {
        match self {
            QueryCategory::Binaries | QueryCategory::Examples | QueryCategory::Profile => {
                Ok(BuildMode::Build)
            },
            QueryCategory::Tests => Ok(BuildMode::Test),
            QueryCategory::Benches => Ok(BuildMode::Bench),
            QueryCategory::Features => Err(QueryError::UnsupportedCategory),
        }
    }

    /// Whether the category classifies workspace targets at all. Features and
    /// Profile are not target categories: their candidates are not build
    /// targets.
    pub open spec fn has_target_predicate(self) -> bool {
        match self {
            QueryCategory::Binaries
            | QueryCategory::Examples
            | QueryCategory::Tests
            | QueryCategory::Benches => true,
            QueryCategory::Features | QueryCategory::Profile => false,
        }
    }

    /// The membership test of a target category: which target kind belongs to
    /// it. Meaningful only when `has_target_predicate` holds.
    pub open spec fn matches_kind_spec(self, kind: TargetKind) -> bool {
        match self {
            QueryCategory::Binaries => kind is Binary,
            QueryCategory::Examples => kind is Example,
            QueryCategory::Tests => kind is Test,
            QueryCategory::Benches => kind is Bench,
            QueryCategory::Features | QueryCategory::Profile => false,
        }
    }

    /// Tests one workspace target against the category's membership
    /// predicate; asking a non-target category is refused rather than
    /// answered.
    pub fn matches_kind(&self, kind: &TargetKind) -> (r: Result<bool, QueryError>)
        ensures
            self.has_target_predicate() ==> r == Ok::<bool, QueryError>(
                self.matches_kind_spec(*kind),
            ),
            !self.has_target_predicate() ==> r == Err::<bool, QueryError>(
                QueryError::UnsupportedCategory,
            ),
    {
        match self {
            QueryCategory::Binaries => Ok(matches!(kind, TargetKind::Binary)),
            QueryCategory::Examples => Ok(matches!(kind, TargetKind::Example)),
            QueryCategory::Tests => Ok(matches!(kind, TargetKind::Test)),
            QueryCategory::Benches => Ok(matches!(kind, TargetKind::Bench)),
            QueryCategory::Features | QueryCategory::Profile => {
                Err(QueryError::UnsupportedCategory)
            },
        }
    }

    /// The category a command-line token names, compared without regard to
    /// ASCII case; `None` when the token names no category.
    pub open spec fn parse_spec(s: Seq<char>) -> Option<QueryCategory> {
        if eq_ignore_ascii_case_spec(s, "binaries"@) {
            Some(QueryCategory::Binaries)
        } else if eq_ignore_ascii_case_spec(s, "examples"@) {
            Some(QueryCategory::Examples)
        } else if eq_ignore_ascii_case_spec(s, "tests"@) {
            Some(QueryCategory::Tests)
        } else if eq_ignore_ascii_case_spec(s, "benches"@) {
            Some(QueryCategory::Benches)
        } else if eq_ignore_ascii_case_spec(s, "features"@) {
            Some(QueryCategory::Features)
        } else if eq_ignore_ascii_case_spec(s, "profile"@) {
            Some(QueryCategory::Profile)
        } else {
            None
        }
    }

    pub fn parse(s: &str) -> (r: Option<QueryCategory>)
        ensures
            r == Self::parse_spec(s@),
    {
        if eq_ignore_ascii_case(s, "binaries") {
            Some(QueryCategory::Binaries)
        } else if eq_ignore_ascii_case(s, "examples") {
            Some(QueryCategory::Examples)
        } else if eq_ignore_ascii_case(s, "tests") {
            Some(QueryCategory::Tests)
        } else if eq_ignore_ascii_case(s, "benches") {
            Some(QueryCategory::Benches)
        } else if eq_ignore_ascii_case(s, "features") {
            Some(QueryCategory::Features)
        } else if eq_ignore_ascii_case(s, "profile") {
            Some(QueryCategory::Profile)
        } else {
            None
        }
    }

    /// Every category, in the order the command line lists them.
    pub open spec fn all_spec() -> Seq<QueryCategory> {
        seq![
            QueryCategory::Binaries,
            QueryCategory::Examples,
            QueryCategory::Tests,
            QueryCategory::Benches,
            QueryCategory::Features,
            QueryCategory::Profile,
        ]
    }

    pub fn all() -> (r: Vec<QueryCategory>)
        ensures
            r@ == Self::all_spec(),
    {
        let r = vec![
            QueryCategory::Binaries,
            QueryCategory::Examples,
            QueryCategory::Tests,
            QueryCategory::Benches,
            QueryCategory::Features,
            QueryCategory::Profile,
        ];
        proof {
            assert(r@ =~= Self::all_spec());
        }
        r
    }
}

} // verus!
