use crate::category::BuildMode;
use crate::category::QueryCategory;
use crate::errors::QueryError;
use crate::session::OutcomeModel;
use crate::session::SelectionOutcome;
use crate::text::joined;
use vstd::prelude::*;

verus! {

/// The caller-facing text a finished session owes. An abort is a distinct
/// `Cancelled` failure, never an empty success. A choice list whose length
/// breaks the category's cardinality (empty, or several under
/// single-selection) is an internal invariant violation. Features joins its
/// choices with commas in selection order; every other category hands the
/// sole choice through unmodified.
pub open spec fn formatted(o: OutcomeModel, c: QueryCategory) -> Result<Seq<char>, QueryError> {
    match o {
        OutcomeModel::Aborted => Err(QueryError::Cancelled),
        OutcomeModel::Accepted(items) => {
            if items.len() == 0 {
                Err(QueryError::InvariantViolation)
            } else if !c.allows_multi_select() && items.len() != 1 {
                Err(QueryError::InvariantViolation)
            } else if c.allows_multi_select() {
                Ok(joined(items, ","@))
            } else {
                Ok(items[0])
            }
        },
    }
}

/// The value of an exec formatting result.
pub open spec fn text_result_model(r: Result<String, QueryError>) -> Result<
    Seq<char>,
    QueryError,
> {
    match r {
        Ok(s) => Ok(s@),
        Err(e) => Err(e),
    }
}

/// Maps a finished session to its printable result, exactly as `formatted`
/// prescribes.
pub fn format_outcome(outcome: &SelectionOutcome, category: &QueryCategory) -> (r: Result<
    String,
    QueryError,
>)
    ensures
        text_result_model(r) == formatted(outcome@, *category),
{
    match outcome {
        SelectionOutcome::Aborted => Err(QueryError::Cancelled),
        SelectionOutcome::Accepted(items) => {
            if items.len() == 0 {
                Err(QueryError::InvariantViolation)
            } else if category.allows_multi() {
                Ok(crate::text::join_all(items, ","))
            } else if items.len() != 1 {
                Err(QueryError::InvariantViolation)
            } else {
                Ok(items[0].clone())
            }
        },
    }
}

/// The (build mode, target name) pair a finished session owes when the caller
/// wants dispatch rather than display. The category's implied build mode must
/// be defined, and exactly one name must have been chosen.
pub open spec fn dispatched(o: OutcomeModel, c: QueryCategory) -> Result<
    (BuildMode, Seq<char>),
    QueryError,
> {
    match o {
        OutcomeModel::Aborted => Err(QueryError::Cancelled),
        OutcomeModel::Accepted(items) => {
            match c.build_mode_of() {
                None => Err(QueryError::UnsupportedCategory),
                Some(mode) => {
                    if items.len() != 1 {
                        Err(QueryError::InvariantViolation)
                    } else {
                        Ok((mode, items[0]))
                    }
                },
            }
        },
    }
}

/// The value of an exec dispatch result.
pub open spec fn pair_result_model(r: Result<(BuildMode, String), QueryError>) -> Result<
    (BuildMode, Seq<char>),
    QueryError,
> {
    match r {
        Ok(p) => Ok((p.0, p.1@)),
        Err(e) => Err(e),
    }
}

/// Maps a finished session to the pair a downstream compile invocation
/// takes, exactly as `dispatched` prescribes.
pub fn dispatch_outcome(outcome: &SelectionOutcome, category: &QueryCategory) -> (r: Result<
    (BuildMode, String),
    QueryError,
>)
    ensures
        pair_result_model(r) == dispatched(outcome@, *category),
{
    match outcome {
        SelectionOutcome::Aborted => Err(QueryError::Cancelled),
        SelectionOutcome::Accepted(items) => {
            match category.implied_build_mode() {
                Err(e) => Err(e),
                Ok(mode) => {
                    if items.len() != 1 {
                        Err(QueryError::InvariantViolation)
                    } else {
                        Ok((mode, items[0].clone()))
                    }
                },
            }
        },
    }
}

} // verus!
