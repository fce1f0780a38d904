use vstd::prelude::*;

verus! {

/// The failure kinds a transition can report. Each precondition violation
/// aborts the whole transition with exactly one of these; environment-level
/// failures (allocation, signatures, missing records) are not translated
/// into them and never reach this enum.
#[derive(Clone, Copy, Debug, PartialEq, Eq, Structural)]
pub enum ErrorCode {
    /// The election has been closed by its authority.
    ElectionNotActive,
    /// The current time lies outside the inclusive voting window.
    ElectionNotInProgress,
    /// The voter record already shows an accepted vote.
    AlreadyVoted,
    /// The candidate index is not below the candidate count.
    InvalidCandidate,
    /// The caller is not the election's authority.
    Unauthorized,
}

} // verus!
