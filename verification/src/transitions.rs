use vstd::prelude::*;
use vstd::pervasive::VecAdditionalExecFns;
use crate::errors::ErrorCode;
use crate::records::Election;
use crate::records::Identity;
use crate::records::Voter;
use crate::tally::lemma_counter_le_sum;
use crate::tally::lemma_sum_votes_push;
use crate::tally::lemma_sum_votes_update;

verus! {

/// The records and signer that creating an election touches: a freshly
/// allocated election slot and the authority that signed and paid for it.
pub struct InitializeElection {
    /// The fresh slot; overwritten whole by `initialize_election`.
    pub election: Election,
    /// The signing identity; becomes the election's authority.
    pub authority: Identity,
}

/// The records and signer that casting a vote touches: the election, the
/// voter record stored under the key derived from (signer, election), and
/// the signing voter identity itself.
pub struct CastVote {
    pub election: Election,
    pub voter: Voter,
    /// The signing identity. The core never reads it: it only determines,
    /// through `voter_record_key`, which voter record the environment
    /// loaded into `voter`.
    pub voter_signer: Identity,
}

/// The records and signer that ending an election touches.
pub struct EndElection {
    pub election: Election,
    /// The identity that signed the call; compared against the election's
    /// stored authority.
    pub authority: Identity,
}

/// The outcome casting a vote owes, given the records as the transition
/// found them and the environment clock's reading. The checks run in a
/// fixed order, so the first violated precondition names the error.
pub open spec fn cast_vote_decision(
    e: Election,
    v: Voter,
    candidate_index: u8,
    now: i64,
) -> Result<(), ErrorCode> {
    if !e.is_active {
        Err(ErrorCode::ElectionNotActive)
    } else if !(e.start_time <= now && now <= e.end_time) {
        Err(ErrorCode::ElectionNotInProgress)
    } else if v.has_voted {
        Err(ErrorCode::AlreadyVoted)
    } else if e.candidates@.len() <= candidate_index as int {
        Err(ErrorCode::InvalidCandidate)
    } else {
        Ok(())
    }
}

/// The outcome ending an election owes: only the stored authority may close
/// it.
pub open spec fn end_election_decision(e: Election, caller: Identity) -> Result<(), ErrorCode> {
    if caller == e.authority {
        Ok(())
    } else {
        Err(ErrorCode::Unauthorized)
    }
}

/// Creates an election: fills the fresh slot with the given configuration,
/// one zero counter per candidate, an empty tally, and the active flag set.
/// Never fails at this layer; reuse of an already initialized slot is the
/// environment's refusal, not this function's.
pub fn initialize_election(
    ctx: &mut InitializeElection,
    election_name: String,
    candidates: Vec<String>,
    start_time: i64,
    end_time: i64,
)
    ensures
        final(ctx).authority == old(ctx).authority,
        final(ctx).election.authority == old(ctx).authority,
        final(ctx).election.election_name == election_name,
        final(ctx).election.candidates == candidates,
        final(ctx).election.votes@.len() == candidates@.len(),
        forall|i: int| 0 <= i < candidates@.len() ==> final(ctx).election.votes@[i] == 0u32,
        final(ctx).election.start_time == start_time,
        final(ctx).election.end_time == end_time,
        final(ctx).election.is_active,
        final(ctx).election.total_voters == 0,
        final(ctx).election.well_formed(),
{
    let n = candidates.len();
    let mut votes: Vec<u32> = Vec::new();
    let mut i: usize = 0;
    while i < n
        invariant
            i <= n,
            votes@.len() == i as int,
            forall|j: int| 0 <= j < i as int ==> votes@[j] == 0u32,
            crate::tally::sum_votes(votes@) == 0,
        decreases n - i,
    {
        proof {
            lemma_sum_votes_push(votes@, 0u32);
        }
        votes.push(0u32);
        i = i + 1;
    }
    ctx.election = Election {
        authority: ctx.authority,
        election_name,
        candidates,
        votes,
        start_time,
        end_time,
        is_active: true,
        total_voters: 0,
    };
}

/// Casts one vote. Checks, in order: the election is active, `now` lies in
/// the inclusive window, the voter record shows no earlier vote, and the
/// candidate index is in range; the first violated check aborts the whole
/// transition with its error and nothing is mutated. If all hold, the
/// candidate's counter and the voter count each rise by one, the voter
/// record is marked voted, and the caller's attestation hash is stored —
/// all as one transition.
///
/// `now` is the trusted environment clock's reading, handed in by the
/// environment, never by the voter.
pub fn cast_vote(
    ctx: &mut CastVote,
    candidate_index: u8,
    verification_hash: String,
    now: i64,
) -> (r: Result<(), ErrorCode>)
    requires
        old(ctx).election.well_formed(),
        old(ctx).election.total_voters < u32::MAX,
    ensures
        r == cast_vote_decision(old(ctx).election, old(ctx).voter, candidate_index, now),
        final(ctx).voter_signer == old(ctx).voter_signer,
        final(ctx).election.authority == old(ctx).election.authority,
        final(ctx).election.election_name == old(ctx).election.election_name,
        final(ctx).election.candidates == old(ctx).election.candidates,
        final(ctx).election.start_time == old(ctx).election.start_time,
        final(ctx).election.end_time == old(ctx).election.end_time,
        final(ctx).election.is_active == old(ctx).election.is_active,
        final(ctx).election.well_formed(),
        r is Err ==> final(ctx).election == old(ctx).election,
        r is Err ==> final(ctx).voter == old(ctx).voter,
        r is Ok ==> final(ctx).election.votes@ == old(ctx).election.votes@.update(
            candidate_index as int,
            (old(ctx).election.votes@[candidate_index as int] + 1) as u32,
        ),
        r is Ok ==> final(ctx).election.total_voters == old(ctx).election.total_voters + 1,
        r is Ok ==> final(ctx).voter.has_voted,
        r is Ok ==> final(ctx).voter.verification_hash == verification_hash,
        old(ctx).voter.has_voted ==> final(ctx).voter.has_voted,
{
    if !ctx.election.is_active {
        return Err(ErrorCode::ElectionNotActive);
    }
    if !(ctx.election.start_time <= now && now <= ctx.election.end_time) {
        return Err(ErrorCode::ElectionNotInProgress);
    }
    if ctx.voter.has_voted {
        return Err(ErrorCode::AlreadyVoted);
    }
    let idx = candidate_index as usize;
    if idx >= ctx.election.candidates.len() {
        return Err(ErrorCode::InvalidCandidate);
    }
    proof {
        lemma_counter_le_sum(ctx.election.votes@, idx as int);
        lemma_sum_votes_update(
            ctx.election.votes@,
            idx as int,
            (ctx.election.votes@[idx as int] + 1) as u32,
        );
    }
    let count = ctx.election.votes[idx];
    ctx.election.votes.set(idx, count + 1);
    ctx.election.total_voters = ctx.election.total_voters + 1;
    ctx.voter.has_voted = true;
    ctx.voter.verification_hash = verification_hash;
    Ok(())
}

/// Ends the election: only the stored authority may, and the only change is
/// the active flag falling to false. Closing an already inactive election
/// is not refused; it rewrites the same value.
pub fn end_election(ctx: &mut EndElection) -> (r: Result<(), ErrorCode>)
    ensures
        r == end_election_decision(old(ctx).election, old(ctx).authority),
        final(ctx).authority == old(ctx).authority,
        final(ctx).election.authority == old(ctx).election.authority,
        final(ctx).election.election_name == old(ctx).election.election_name,
        final(ctx).election.candidates == old(ctx).election.candidates,
        final(ctx).election.votes == old(ctx).election.votes,
        final(ctx).election.start_time == old(ctx).election.start_time,
        final(ctx).election.end_time == old(ctx).election.end_time,
        final(ctx).election.total_voters == old(ctx).election.total_voters,
        r is Ok ==> !final(ctx).election.is_active,
        r is Err ==> final(ctx).election == old(ctx).election,
        old(ctx).election.well_formed() ==> final(ctx).election.well_formed(),
{
    if ctx.authority != ctx.election.authority {
        return Err(ErrorCode::Unauthorized);
    }
    ctx.election.is_active = false;
    Ok(())
}

} // verus!
