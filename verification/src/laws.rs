use vstd::prelude::*;
use crate::errors::ErrorCode;
use crate::records::Election;
use crate::records::Identity;
use crate::records::Voter;
use crate::transitions::cast_vote_decision;
use crate::transitions::end_election_decision;

verus! {

/// Single-vote guarantee. Once a voter record shows an accepted vote, no
/// later attempt for it succeeds, whatever the candidate or the time; and
/// whenever the election is still active and the clock is inside the
/// window, the refusal is exactly `AlreadyVoted`. Together with the
/// contract of `cast_vote` — a success flips `has_voted` to true and a
/// failure leaves the record untouched — and the environment's rule of one
/// record per `voter_record_key`, at most one attempt per (voter, election)
/// pair can ever be accepted, however many are made.
pub proof fn lemma_single_vote(e: Election, v: Voter, candidate_index: u8, now: i64)
    requires
        v.has_voted,
    ensures
        cast_vote_decision(e, v, candidate_index, now) != Ok::<(), ErrorCode>(()),
        e.is_active && e.start_time <= now <= e.end_time ==> cast_vote_decision(
            e,
            v,
            candidate_index,
            now,
        ) == Err::<(), ErrorCode>(ErrorCode::AlreadyVoted),
{
}

/// One submitted vote attempt, as the environment would replay it against a
/// voter record: the election state the attempt found, the ballot, and the
/// clock reading at that moment.
pub struct CastAttempt {
    pub election: Election,
    pub candidate_index: u8,
    pub verification_hash: String,
    pub now: i64,
}

/// The voter record an accepted vote leaves behind: marked voted, carrying
/// the attestation hash. Matches the contract of `cast_vote` on success.
pub open spec fn voter_after_accept(verification_hash: String) -> Voter {
    Voter { has_voted: true, verification_hash }
}

/// How many of a sequence of attempts against one voter record are
/// accepted, replaying them in order: an accepted attempt rewrites the
/// record as `cast_vote` does, a refused one leaves it as it was.
pub open spec fn accepted_votes(v: Voter, attempts: Seq<CastAttempt>) -> nat
    decreases attempts.len(),
{
    if attempts.len() == 0 {
        0
    } else {
        let a = attempts[0];
        if cast_vote_decision(a.election, v, a.candidate_index, a.now) == Ok::<(), ErrorCode>(
            (),
        ) {
            1 + accepted_votes(voter_after_accept(a.verification_hash), attempts.drop_first())
        } else {
            accepted_votes(v, attempts.drop_first())
        }
    }
}

/// Single-vote guarantee over whole histories. However many attempts are
/// replayed in order against one voter record — and the environment
/// serializes all attempts for one (voter, election) pair onto the one
/// record `voter_record_key` addresses — at most one is ever accepted, and
/// none at all once the record shows a vote.
pub proof fn lemma_at_most_one_accepted(v: Voter, attempts: Seq<CastAttempt>)
    ensures
        accepted_votes(v, attempts) <= 1,
        v.has_voted ==> accepted_votes(v, attempts) == 0,
    decreases attempts.len(),
{
    if attempts.len() > 0 {
        let a = attempts[0];
        if cast_vote_decision(a.election, v, a.candidate_index, a.now) == Ok::<(), ErrorCode>(
            (),
        ) {
            lemma_at_most_one_accepted(
                voter_after_accept(a.verification_hash),
                attempts.drop_first(),
            );
        } else {
            lemma_at_most_one_accepted(v, attempts.drop_first());
        }
    }
}

/// Window enforcement. A vote is accepted only while the election is active
/// and the trusted clock reads inside the inclusive window; an inactive
/// election refuses with `ElectionNotActive`, and an active one outside the
/// window refuses with `ElectionNotInProgress`.
pub proof fn lemma_window_enforcement(e: Election, v: Voter, candidate_index: u8, now: i64)
    ensures
        cast_vote_decision(e, v, candidate_index, now) == Ok::<(), ErrorCode>(()) ==> e.is_active
            && e.start_time <= now <= e.end_time,
        !e.is_active ==> cast_vote_decision(e, v, candidate_index, now) == Err::<(), ErrorCode>(
            ErrorCode::ElectionNotActive,
        ),
        e.is_active && !(e.start_time <= now <= e.end_time) ==> cast_vote_decision(
            e,
            v,
            candidate_index,
            now,
        ) == Err::<(), ErrorCode>(ErrorCode::ElectionNotInProgress),
{
}

/// Candidate bound. An index at or past the candidate count is never
/// accepted, and when it is the first violated check — election active,
/// clock in the window, voter fresh — the refusal is exactly
/// `InvalidCandidate`. That no record moves on any refusal is part of the
/// contract of `cast_vote`.
pub proof fn lemma_candidate_bound(e: Election, v: Voter, candidate_index: u8, now: i64)
    requires
        e.candidates@.len() <= candidate_index as int,
    ensures
        cast_vote_decision(e, v, candidate_index, now) != Ok::<(), ErrorCode>(()),
        e.is_active && e.start_time <= now <= e.end_time && !v.has_voted ==> cast_vote_decision(
            e,
            v,
            candidate_index,
            now,
        ) == Err::<(), ErrorCode>(ErrorCode::InvalidCandidate),
{
}

/// Authority gate. Any caller other than the stored authority is refused
/// with `Unauthorized`; that the active flag (and every other field) is
/// then left unchanged is part of the contract of `end_election`.
pub proof fn lemma_authority_gate(e: Election, caller: Identity)
    requires
        caller != e.authority,
    ensures
        end_election_decision(e, caller) == Err::<(), ErrorCode>(ErrorCode::Unauthorized),
{
}

} // verus!
