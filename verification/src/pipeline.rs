use crate::catalog::candidates_spec;
use crate::catalog::enumerate;
use crate::catalog::lemma_first_occurrences_props;
use crate::catalog::lemma_matching_names_sound;
use crate::catalog::matching_names;
use crate::catalog::names_a_matching_target;
use crate::category::QueryCategory;
use crate::errors::QueryError;
use crate::mapper::formatted;
use crate::mapper::text_result_model;
use crate::session::EventModel;
use crate::session::PickerEvent;
use crate::session::PickerRequest;
use crate::session::resolve_spec;
use crate::text::joined;
use crate::text::line_safe;
use crate::workspace::WorkspaceInfo;
use vstd::prelude::*;

verus! {

/// The half of one invocation that runs before the interactive session:
/// enumerate the category's candidates and configure the picker over them.
/// Features fails here, before any terminal work. An empty candidate list is
/// not an error: the picker simply presents nothing.
///
/// The workspace must offer line-safe names (the picker input is
/// line-oriented) and few enough of them for the viewport arithmetic to fit
/// the machine.
pub fn prepare(category: &QueryCategory, ws: &WorkspaceInfo) -> (r: Result<
    PickerRequest,
    QueryError,
>)
    requires
        ws@.line_safe_names(),
        3 * ws@.targets.len() <= usize::MAX,
        3 * ws@.profiles.len() <= usize::MAX,
    ensures
        category is Features ==> r == Err::<PickerRequest, QueryError>(
            QueryError::UnsupportedCategory,
        ),
        !(category is Features) ==> (r matches Ok(req) && req.input@ == joined(
            candidates_spec(*category, ws@),
            "\n"@,
        ) && req.prompt@ == "Choose "@ + category.label() + "> "@ && req.allows_multi
            == category.allows_multi_select() && req.height == 3 * candidates_spec(
            *category,
            ws@,
        ).len()),
{
    match enumerate(category, ws) {
        Err(e) => Err(e),
        Ok(candidates) => {
            proof {
                let cands = candidates.deep_view();
                assert(cands.len() == candidates@.len());
                if *category is Profile {
                    lemma_first_occurrences_props(ws@.profiles);
                    assert(cands.len() <= ws@.profiles.len());
                    assert forall|i: int| 0 <= i < cands.len() implies line_safe(
                        #[trigger] cands[i],
                    ) by {
                        assert(cands.contains(cands[i]));
                        assert(ws@.profiles.contains(cands[i]));
                        let j = choose|j: int|
                            0 <= j < ws@.profiles.len() && ws@.profiles[j] == cands[i];
                        assert(line_safe(ws@.profiles[j]));
                    }
                } else {
                    let base = matching_names(ws@.targets, *category);
                    lemma_matching_names_sound(ws@.targets, *category);
                    lemma_first_occurrences_props(base);
                    assert(cands.len() <= ws@.targets.len());
                    assert forall|i: int| 0 <= i < cands.len() implies line_safe(
                        #[trigger] cands[i],
                    ) by {
                        assert(cands.contains(cands[i]));
                        assert(base.contains(cands[i]));
                        let k = choose|k: int| 0 <= k < base.len() && base[k] == cands[i];
                        assert(names_a_matching_target(ws@.targets, *category, base[k]));
                        let j = choose|j: int|
                            0 <= j < ws@.targets.len() && category.matches_kind_spec(
                                #[trigger] ws@.targets[j].kind,
                            ) && ws@.targets[j].name == base[k];
                        assert(line_safe(ws@.targets[j].name));
                    }
                }
            }
            Ok(PickerRequest::new(category, &candidates))
        },
    }
}

/// What the whole invocation owes once the picker event is in:
/// the resolved outcome, formatted.
pub open spec fn completed(c: QueryCategory, e: EventModel) -> Result<Seq<char>, QueryError> {
    match resolve_spec(c, e) {
        Err(x) => Err(x),
        Ok(o) => formatted(o, c),
    }
}

/// The half of one invocation that runs after the interactive session:
/// resolve the raw picker event and format the result, exactly as
/// `completed` prescribes.
pub fn complete(category: &QueryCategory, event: PickerEvent) -> (r: Result<String, QueryError>)
    ensures
        text_result_model(r) == completed(*category, event@),
{
    match crate::session::resolve_outcome(category, event) {
        Err(x) => Err(x),
        Ok(o) => crate::mapper::format_outcome(&o, category),
    }
}

} // verus!
