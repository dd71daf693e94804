use crate::catalog::candidates_spec;
use crate::catalog::lemma_first_occurrences_props;
use crate::catalog::lemma_matching_names_sound;
use crate::catalog::matching_names;
use crate::catalog::names_a_matching_target;
use crate::category::QueryCategory;
use crate::errors::QueryError;
use crate::pipeline::completed;
use crate::session::EventModel;
use crate::session::OutcomeModel;
use crate::session::resolve_spec;
use crate::text::folded_scalar;
use crate::workspace::WorkspaceModel;
use vstd::prelude::*;

verus! {

/// For every category except Features, a session that ends in acceptance has
/// committed exactly one chosen string, whatever the picker handed back.
pub proof fn lemma_single_select_cardinality(c: QueryCategory, e: EventModel)
    requires
        !c.allows_multi_select(),
    ensures
        resolve_spec(c, e) matches Ok(OutcomeModel::Accepted(items)) ==> items.len() == 1,
{
}

/// Whatever the category and whatever the picker handed back, a session that
/// ends in acceptance has committed at least one chosen string: "accepted
/// nothing" is resolved as an abort, never as an empty acceptance.
pub proof fn lemma_accepted_outcome_nonempty(c: QueryCategory, e: EventModel)
    ensures
        resolve_spec(c, e) matches Ok(OutcomeModel::Accepted(items)) ==> items.len() >= 1,
{
}

/// A target category's catalog holds only names of workspace targets that
/// its membership predicate accepts.
pub proof fn lemma_catalog_matches_predicate(c: QueryCategory, w: WorkspaceModel)
    requires
        c.has_target_predicate(),
    ensures
        forall|k: int|
            0 <= k < candidates_spec(c, w).len() ==> names_a_matching_target(
                w.targets,
                c,
                #[trigger] candidates_spec(c, w)[k],
            ),
{
    let base = matching_names(w.targets, c);
    lemma_matching_names_sound(w.targets, c);
    lemma_first_occurrences_props(base);
    assert forall|k: int| 0 <= k < candidates_spec(c, w).len() implies names_a_matching_target(
        w.targets,
        c,
        candidates_spec(c, w)[k],
    ) by {
        let cands = candidates_spec(c, w);
        assert(cands.contains(cands[k]));
        assert(base.contains(cands[k]));
        let j = choose|j: int| 0 <= j < base.len() && base[j] == cands[k];
        assert(names_a_matching_target(w.targets, c, base[j]));
    }
}

/// No category's catalog repeats a candidate.
pub proof fn lemma_catalog_no_duplicates(c: QueryCategory, w: WorkspaceModel)
    ensures
        candidates_spec(c, w).no_duplicates(),
{
    if c is Profile {
        lemma_first_occurrences_props(w.profiles);
    } else {
        lemma_first_occurrences_props(matching_names(w.targets, c));
    }
}

/// The Profile catalog holds exactly the workspace's configured profile
/// names: every profile name appears, and nothing else does.
pub proof fn lemma_profile_catalog_complete(w: WorkspaceModel)
    ensures
        forall|x: Seq<char>|
            candidates_spec(QueryCategory::Profile, w).contains(x) <==> w.profiles.contains(x),
{
    lemma_first_occurrences_props(w.profiles);
}

/// Round trip: when the operator accepts the first candidate of list `l`
/// without filtering, a single-select category's final output is exactly
/// `l[0]`.
pub proof fn lemma_first_candidate_round_trip(c: QueryCategory, l: Seq<Seq<char>>)
    requires
        !c.allows_multi_select(),
        l.len() > 0,
    ensures
        completed(c, EventModel::Accepted(seq![l[0]])) == Ok::<Seq<char>, QueryError>(l[0]),
{
    let items = seq![l[0]];
    assert(seq![items[0]] =~= items);
}

/// Parsing a category's own display name gives that category back: the six
/// names are pairwise distinct even without regard to ASCII case.
pub proof fn lemma_parse_name_round_trip(c: QueryCategory)
    ensures
        QueryCategory::parse_spec(c.label()) == Some(c),
{
    reveal_strlit("binaries");
    reveal_strlit("examples");
    reveal_strlit("tests");
    reveal_strlit("benches");
    reveal_strlit("features");
    reveal_strlit("profile");
    assert('b' as u32 == 98);
    assert('e' as u32 == 101);
    assert('f' as u32 == 102);
    assert('p' as u32 == 112);
    assert(folded_scalar("examples"@[0]) != folded_scalar("binaries"@[0]));
    assert(folded_scalar("features"@[0]) != folded_scalar("binaries"@[0]));
    assert(folded_scalar("features"@[0]) != folded_scalar("examples"@[0]));
    assert(folded_scalar("profile"@[0]) != folded_scalar("benches"@[0]));
}

/// An abort always surfaces as the distinct `Cancelled` failure, never as an
/// empty-string success; accepting nothing at all resolves the same way.
pub proof fn lemma_abort_yields_cancelled(c: QueryCategory)
    ensures
        completed(c, EventModel::Aborted) == Err::<Seq<char>, QueryError>(QueryError::Cancelled),
        completed(c, EventModel::Accepted(Seq::empty())) == Err::<Seq<char>, QueryError>(
            QueryError::Cancelled,
        ),
{
}

} // verus!
