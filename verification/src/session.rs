use crate::category::QueryCategory;
use crate::errors::QueryError;
use crate::text::joined;
use crate::text::line_safe;
use vstd::prelude::*;

verus! {

/// Everything one run of the external fuzzy picker needs: the candidate
/// list serialised one per line, the prompt, the selection cardinality, and
/// a viewport height hint.
pub struct PickerRequest {
    pub input: String,
    pub prompt: String,
    pub allows_multi: bool,
    pub height: usize,
}

/// What came back from one run of the external picker, reduced to plain
/// values: the lines the operator committed, an explicit abort, or a picker
/// that could not run at all.
pub enum PickerEvent {
    Accepted(Vec<String>),
    Aborted,
    Failed,
}

/// The mathematical value of a `PickerEvent`.
#[verifier::ext_equal]
pub enum EventModel {
    Accepted(Seq<Seq<char>>),
    Aborted,
    Failed,
}

impl View for PickerEvent {
    type V = EventModel;

    open spec fn view(&self) -> EventModel {
        match self {
            PickerEvent::Accepted(items) => EventModel::Accepted(items.deep_view()),
            PickerEvent::Aborted => EventModel::Aborted,
            PickerEvent::Failed => EventModel::Failed,
        }
    }
}

/// The terminal state of one selection session: an ordered, committed choice
/// list, or a session the operator declined to finish.
pub enum SelectionOutcome {
    Accepted(Vec<String>),
    Aborted,
}

/// The mathematical value of a `SelectionOutcome`.
#[verifier::ext_equal]
pub enum OutcomeModel {
    Accepted(Seq<Seq<char>>),
    Aborted,
}

impl View for SelectionOutcome {
    type V = OutcomeModel;

    open spec fn view(&self) -> OutcomeModel {
        match self {
            SelectionOutcome::Accepted(items) => OutcomeModel::Accepted(items.deep_view()),
            SelectionOutcome::Aborted => OutcomeModel::Aborted,
        }
    }
}

impl PickerRequest {
    /// Configures one picker run over `candidates` for `category`. Candidates
    /// carry no line break: the input format is line-oriented, and a caller
    /// that passes one has already broken the catalog's contract. The height
    /// hint is proportional to the candidate count and has no effect on
    /// correctness.
    pub fn new(category: &QueryCategory, candidates: &Vec<String>) -> (r: PickerRequest)
        requires
            forall|i: int|
                0 <= i < candidates.deep_view().len() ==> line_safe(
                    #[trigger] candidates.deep_view()[i],
                ),
            3 * candidates@.len() <= usize::MAX,
        ensures
            r.input@ == joined(candidates.deep_view(), "\n"@),
            r.prompt@ == "Choose "@ + category.label() + "> "@,
            r.allows_multi == category.allows_multi_select(),
            r.height == 3 * candidates@.len(),
    {
        let input = crate::text::join_all(candidates, "\n");
        let mut prompt = String::new();
        prompt.append("Choose ");
        prompt.append(category.name());
        prompt.append("> ");
        proof {
            assert(prompt@ =~= "Choose "@ + category.label() + "> "@);
        }
        PickerRequest { input, prompt, allows_multi: category.allows_multi(), height: candidates.len() * 3 }
    }
}

/// What a session owes for each possible picker event: a failed picker is an
/// internal failure, an abort or an accept of nothing commits no choice, and
/// an accept under single-selection keeps only the first committed line even
/// if the picker handed back several.
pub open spec fn resolve_spec(c: QueryCategory, e: EventModel) -> Result<
    OutcomeModel,
    QueryError,
> {
    match e {
        EventModel::Failed => Err(QueryError::InternalUIError),
        EventModel::Aborted => Ok(OutcomeModel::Aborted),
        EventModel::Accepted(items) => {
            if items.len() == 0 {
                Ok(OutcomeModel::Aborted)
            } else if c.allows_multi_select() {
                Ok(OutcomeModel::Accepted(items))
            } else {
                Ok(OutcomeModel::Accepted(seq![items[0]]))
            }
        },
    }
}

/// The value of an exec resolution result.
pub open spec fn outcome_result_model(r: Result<SelectionOutcome, QueryError>) -> Result<
    OutcomeModel,
    QueryError,
> {
    match r {
        Ok(o) => Ok(o@),
        Err(e) => Err(e),
    }
}

/// Turns the raw picker event into the session's terminal state, exactly as
/// `resolve_spec` prescribes.
pub fn resolve_outcome(category: &QueryCategory, event: PickerEvent) -> (r: Result<
    SelectionOutcome,
    QueryError,
>)
    ensures
        outcome_result_model(r) == resolve_spec(*category, event@),
{
    match event {
        PickerEvent::Failed => Err(QueryError::InternalUIError),
        PickerEvent::Aborted => Ok(SelectionOutcome::Aborted),
        PickerEvent::Accepted(items) => {
            if items.len() == 0 {
                Ok(SelectionOutcome::Aborted)
            } else if category.allows_multi() {
                Ok(SelectionOutcome::Accepted(items))
            } else {
                let mut one: Vec<String> = Vec::new();
                one.push(items[0].clone());
                proof {
                    assert(one.deep_view() =~= seq![items.deep_view()[0]]);
                }
                Ok(SelectionOutcome::Accepted(one))
            }
        },
    }
}

} // verus!
