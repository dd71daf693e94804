use vstd::prelude::*;

verus! {

/// Every way one query invocation can fail.
///
/// `Cancelled` is the expected outcome of a user abort; the others report a
/// category with no defined behaviour, a picker that could not run, and an
/// internal cardinality violation, respectively.
#[derive(Clone, Copy, Debug, PartialEq, Eq, Structural)]
pub enum QueryError {
    /// The category has no defined predicate, enumeration, or build mode.
    UnsupportedCategory,
    /// The operator explicitly aborted the interactive session.
    Cancelled,
    /// The interactive picker could not start or ended abnormally.
    InternalUIError,
    /// A selection broke the category's cardinality contract.
    InvariantViolation,
}

impl QueryError {
    /// The single-line, user-readable description of the failure.
    pub open spec fn message_spec(self) -> Seq<char> {
        match self {
            QueryError::UnsupportedCategory => "unsupported query category"@,
            QueryError::Cancelled => "selection cancelled"@,
            QueryError::InternalUIError => "interactive picker failed"@,
            QueryError::InvariantViolation => "internal selection invariant violated"@,
        }
    }

    pub fn message(&self) -> (r: &'static str)
        ensures
            r@ == self.message_spec(),
    {
        match self {
            QueryError::UnsupportedCategory => "unsupported query category",
            QueryError::Cancelled => "selection cancelled",
            QueryError::InternalUIError => "interactive picker failed",
            QueryError::InvariantViolation => "internal selection invariant violated",
        }
    }
}

} // verus!
