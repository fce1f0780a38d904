use vstd::prelude::*;
use crate::tally::sum_votes;

verus! {

/// An opaque identity key, standing for the ledger environment's account
/// keys. The core only ever compares identities for equality, so one machine
/// word per identity suffices; the environment maps its real keys onto these
/// one to one.
#[derive(Clone, Copy, Debug, PartialEq, Eq, Hash, Structural)]
pub struct Identity {
    pub id: u64,
}

/// The storage key of a voter record: a pure function of the voter identity
/// and the election identity. Because the key is deterministic, the
/// environment can refuse a second record for the same pair, which is what
/// makes the single-vote guarantee structural rather than merely checked.
#[derive(Clone, Copy, Debug, PartialEq, Eq, Hash, Structural)]
pub struct VoterKey {
    pub voter: Identity,
    pub election: Identity,
}

/// Derives the canonical storage key of the voter record for a
/// (voter identity, election identity) pair. Deterministic by construction:
/// the same pair always yields the same key, and distinct pairs yield
/// distinct keys.
pub fn voter_record_key(voter: Identity, election: Identity) -> (k: VoterKey)
    ensures
        k == (VoterKey { voter, election }),
{
    VoterKey { voter, election }
}

/// Configuration and tally state of one election. Created once; afterwards
/// only `votes` and `total_voters` move (one accepted vote at a time) and
/// `is_active` falls to false (once, by the authority).
pub struct Election {
    /// The identity permitted to close the election; set at creation.
    pub authority: Identity,
    /// Display name; immutable after creation.
    pub election_name: String,
    /// Ordered candidate names; length fixed at creation.
    pub candidates: Vec<String>,
    /// Per-candidate counters, index-aligned with `candidates`.
    pub votes: Vec<u32>,
    /// Inclusive lower bound of the voting window.
    pub start_time: i64,
    /// Inclusive upper bound of the voting window.
    pub end_time: i64,
    /// True from creation until the authority ends the election.
    pub is_active: bool,
    /// Count of accepted votes; always the sum of `votes`.
    pub total_voters: u32,
}

impl Election {
    /// The record invariant: one counter per candidate, and the running
    /// voter count equal to the sum of the counters. Established at
    /// creation and preserved by every transition.
    pub open spec fn well_formed(self) -> bool {
        &&& self.votes@.len() == self.candidates@.len()
        &&& self.total_voters as int == sum_votes(self.votes@)
    }
}

impl Default for Election {
    /// A freshly allocated, still empty election slot, as the environment
    /// hands it to `initialize_election`: everything zeroed and inactive.
    fn default() -> (e: Election)
        ensures
            e.authority == (Identity { id: 0 }),
            e.election_name@ == Seq::<char>::empty(),
            e.candidates@.len() == 0,
            e.votes@.len() == 0,
            e.start_time == 0,
            e.end_time == 0,
            !e.is_active,
            e.total_voters == 0,
            e.well_formed(),
    {
        Election {
            authority: Identity { id: 0 },
            election_name: String::new(),
            candidates: Vec::new(),
            votes: Vec::new(),
            start_time: 0,
            end_time: 0,
            is_active: false,
            total_voters: 0,
        }
    }
}

/// One voter's participation state for one election, stored under the key
/// `voter_record_key` derives for the pair.
pub struct Voter {
    /// False on creation; flipped to true by the one accepted vote and
    /// never reset.
    pub has_voted: bool,
    /// Opaque attestation string from the external verification layer;
    /// empty until the vote is cast, then set once.
    pub verification_hash: String,
}

impl Default for Voter {
    /// A freshly created voter record, as the environment materialises it
    /// the first time the pair's key is touched: no vote yet, no hash.
    fn default() -> (v: Voter)
        ensures
            !v.has_voted,
            v.verification_hash@ == Seq::<char>::empty(),
    {
        Voter { has_voted: false, verification_hash: String::new() }
    }
}

} // verus!
