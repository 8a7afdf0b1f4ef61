use vstd::prelude::*;

verus! {

/// Why an inbound activity or a resolution was rejected.
#[derive(Clone, Copy, Debug, PartialEq, Eq, Structural)]
pub enum ApubError {
    /// Domain mismatch, malformed envelope, locked target or mismatched reciprocal reference.
    ProtocolViolation,
    /// The actor lacks the standing that the activity requires.
    Forbidden,
    /// A dereference failed, or an inverse operation found no forward state.
    NotFound,
    /// Recursive resolution ran out of its fetch allowance.
    FetchBudgetExceeded,
    /// Content policy or identifier format failure.
    ValidationError,
    /// A store operation failed.
    PersistenceError,
}

} // verus!
