//! State-transition core for a single-authority election kept on an
//! append-only ledger of account-like records.
//!
//! One authority creates an election with a fixed candidate list and an
//! inclusive time window; each eligible participant casts at most one vote
//! inside that window; the authority may close the election early. The
//! ledger environment (storage, signatures, the trusted clock, address
//! derivation) is an external collaborator: the functions here receive the
//! records they touch, the identities that signed, and the current time as
//! plain values, and mutate the records in place or refuse with one of the
//! five error kinds, never partially.

pub mod errors;
pub mod laws;
pub mod records;
pub mod tally;
pub mod transitions;

pub use errors::ErrorCode;
pub use records::Election;
pub use records::Identity;
pub use records::Voter;
pub use records::VoterKey;
pub use records::voter_record_key;
pub use tally::sum_votes;
pub use transitions::CastVote;
pub use transitions::EndElection;
pub use transitions::InitializeElection;
pub use transitions::cast_vote;
pub use transitions::cast_vote_decision;
pub use transitions::end_election;
pub use transitions::end_election_decision;
pub use transitions::initialize_election;
