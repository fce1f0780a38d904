use solana_evoting::CastVote;
use solana_evoting::Election;
use solana_evoting::EndElection;
use solana_evoting::ErrorCode;
use solana_evoting::Identity;
use solana_evoting::InitializeElection;
use solana_evoting::Voter;
use solana_evoting::cast_vote;
use solana_evoting::end_election;
use solana_evoting::initialize_election;

const AUTHORITY: u64 = 7;

fn make_election(candidates: Vec<String>, start_time: i64, end_time: i64) -> Election {
    let mut ctx = InitializeElection {
        election: Election::default(),
        authority: Identity { id: AUTHORITY },
    };
    initialize_election(
        &mut ctx,
        String::from("city council"),
        candidates,
        start_time,
        end_time,
    );
    ctx.election
}

fn alice_bob_election() -> Election {
    make_election(vec![String::from("Alice"), String::from("Bob")], 100, 200)
}

fn vote(
    election: Election,
    voter: Voter,
    signer: u64,
    candidate_index: u8,
    hash: &str,
    now: i64,
) -> (Election, Voter, Result<(), ErrorCode>) {
    let mut ctx = CastVote {
        election,
        voter,
        voter_signer: Identity { id: signer },
    };
    let r = cast_vote(&mut ctx, candidate_index, String::from(hash), now);
    (ctx.election, ctx.voter, r)
}

#[test]
fn initialization_populates_every_field() {
    let e = alice_bob_election();
    assert_eq!(e.authority, Identity { id: AUTHORITY });
    assert_eq!(e.election_name, "city council");
    assert_eq!(e.candidates, vec![String::from("Alice"), String::from("Bob")]);
    assert_eq!(e.votes, vec![0, 0]);
    assert_eq!(e.start_time, 100);
    assert_eq!(e.end_time, 200);
    assert!(e.is_active);
    assert_eq!(e.total_voters, 0);
}

#[test]
fn initialization_with_empty_candidate_list() {
    let e = make_election(Vec::new(), 0, 10);
    assert_eq!(e.candidates.len(), 0);
    assert_eq!(e.votes.len(), 0);
    assert_eq!(e.total_voters, 0);
    assert!(e.is_active);
}

#[test]
fn initialization_zeroes_a_longer_tally() {
    let names: Vec<String> = (0..9).map(|i| format!("candidate {}", i)).collect();
    let e = make_election(names, -50, 50);
    assert_eq!(e.votes, vec![0; 9]);
    assert_eq!(e.total_voters, 0);
}

#[test]
fn scenario_accepted_vote() {
    let e = alice_bob_election();
    let (e, v1, r) = vote(e, Voter::default(), 1, 0, "attestation-v1", 150);
    assert_eq!(r, Ok(()));
    assert_eq!(e.votes, vec![1, 0]);
    assert_eq!(e.total_voters, 1);
    assert!(v1.has_voted);
    assert_eq!(v1.verification_hash, "attestation-v1");
}

#[test]
fn scenario_second_attempt_already_voted() {
    let e = alice_bob_election();
    let (e, v1, r) = vote(e, Voter::default(), 1, 0, "attestation-v1", 150);
    assert_eq!(r, Ok(()));
    let (e, v1, r) = vote(e, v1, 1, 0, "attestation-v1-again", 160);
    assert_eq!(r, Err(ErrorCode::AlreadyVoted));
    assert_eq!(e.votes, vec![1, 0]);
    assert_eq!(e.total_voters, 1);
    assert!(v1.has_voted);
    assert_eq!(v1.verification_hash, "attestation-v1");
}

#[test]
fn scenario_vote_after_window() {
    let e = alice_bob_election();
    let (e, v2, r) = vote(e, Voter::default(), 2, 0, "attestation-v2", 250);
    assert_eq!(r, Err(ErrorCode::ElectionNotInProgress));
    assert_eq!(e.votes, vec![0, 0]);
    assert_eq!(e.total_voters, 0);
    assert!(!v2.has_voted);
    assert_eq!(v2.verification_hash, "");
}

#[test]
fn vote_before_window() {
    let e = alice_bob_election();
    let (e, _, r) = vote(e, Voter::default(), 2, 1, "attestation-v2", 50);
    assert_eq!(r, Err(ErrorCode::ElectionNotInProgress));
    assert_eq!(e.votes, vec![0, 0]);
}

#[test]
fn window_bounds_are_inclusive() {
    let e = alice_bob_election();
    let (e, _, r) = vote(e, Voter::default(), 1, 0, "at-start", 100);
    assert_eq!(r, Ok(()));
    let (e, _, r) = vote(e, Voter::default(), 2, 1, "at-end", 200);
    assert_eq!(r, Ok(()));
    assert_eq!(e.votes, vec![1, 1]);
    assert_eq!(e.total_voters, 2);
}

#[test]
fn scenario_invalid_candidate() {
    let e = alice_bob_election();
    let (e, v3, r) = vote(e, Voter::default(), 3, 5, "attestation-v3", 150);
    assert_eq!(r, Err(ErrorCode::InvalidCandidate));
    assert_eq!(e.votes, vec![0, 0]);
    assert_eq!(e.total_voters, 0);
    assert!(!v3.has_voted);
}

#[test]
fn index_just_past_the_list_is_invalid() {
    let e = alice_bob_election();
    let (_, _, r) = vote(e, Voter::default(), 3, 2, "attestation-v3", 150);
    assert_eq!(r, Err(ErrorCode::InvalidCandidate));
}

#[test]
fn empty_candidate_list_accepts_no_index() {
    let e = make_election(Vec::new(), 100, 200);
    let (_, _, r) = vote(e, Voter::default(), 1, 0, "attestation", 150);
    assert_eq!(r, Err(ErrorCode::InvalidCandidate));
}

#[test]
fn scenario_end_by_non_authority() {
    let e = alice_bob_election();
    let mut ctx = EndElection {
        election: e,
        authority: Identity { id: AUTHORITY + 1 },
    };
    let r = end_election(&mut ctx);
    assert_eq!(r, Err(ErrorCode::Unauthorized));
    assert!(ctx.election.is_active);
    let (e, v, r) = vote(ctx.election, Voter::default(), 4, 1, "attestation-v4", 150);
    assert_eq!(r, Ok(()));
    assert_eq!(e.votes, vec![0, 1]);
    assert!(v.has_voted);
}

#[test]
fn scenario_end_by_authority() {
    let e = alice_bob_election();
    let mut ctx = EndElection {
        election: e,
        authority: Identity { id: AUTHORITY },
    };
    let r = end_election(&mut ctx);
    assert_eq!(r, Ok(()));
    assert!(!ctx.election.is_active);
    assert_eq!(ctx.election.votes, vec![0, 0]);
    assert_eq!(ctx.election.total_voters, 0);
    let (e, v, r) = vote(ctx.election, Voter::default(), 5, 0, "attestation-v5", 150);
    assert_eq!(r, Err(ErrorCode::ElectionNotActive));
    assert_eq!(e.votes, vec![0, 0]);
    assert!(!v.has_voted);
}

#[test]
fn ending_twice_stays_inactive() {
    let e = alice_bob_election();
    let mut ctx = EndElection {
        election: e,
        authority: Identity { id: AUTHORITY },
    };
    assert_eq!(end_election(&mut ctx), Ok(()));
    let mut again = EndElection {
        election: ctx.election,
        authority: Identity { id: AUTHORITY },
    };
    assert_eq!(end_election(&mut again), Ok(()));
    assert!(!again.election.is_active);
}

#[test]
fn inactive_election_wins_over_window() {
    // The checks run in a fixed order: an ended election reports
    // ElectionNotActive even when the clock is also outside the window.
    let e = alice_bob_election();
    let mut ctx = EndElection {
        election: e,
        authority: Identity { id: AUTHORITY },
    };
    assert_eq!(end_election(&mut ctx), Ok(()));
    let (_, _, r) = vote(ctx.election, Voter::default(), 6, 9, "attestation", 999);
    assert_eq!(r, Err(ErrorCode::ElectionNotActive));
}

#[test]
fn already_voted_wins_over_invalid_candidate() {
    let e = alice_bob_election();
    let (e, v1, r) = vote(e, Voter::default(), 1, 0, "attestation-v1", 150);
    assert_eq!(r, Ok(()));
    let (_, _, r) = vote(e, v1, 1, 9, "attestation", 150);
    assert_eq!(r, Err(ErrorCode::AlreadyVoted));
}

#[test]
fn out_of_window_wins_over_already_voted() {
    let e = alice_bob_election();
    let (e, v1, r) = vote(e, Voter::default(), 1, 0, "attestation-v1", 150);
    assert_eq!(r, Ok(()));
    let (_, _, r) = vote(e, v1, 1, 0, "attestation", 300);
    assert_eq!(r, Err(ErrorCode::ElectionNotInProgress));
}

#[test]
fn tally_sums_across_many_voters() {
    let mut e = make_election(
        vec![String::from("Alice"), String::from("Bob"), String::from("Carol")],
        100,
        200,
    );
    let picks: [u8; 7] = [0, 1, 1, 2, 0, 1, 2];
    for (who, pick) in picks.iter().enumerate() {
        let (e2, v, r) = vote(
            e,
            Voter::default(),
            1000 + who as u64,
            *pick,
            "attestation",
            150,
        );
        assert_eq!(r, Ok(()));
        assert!(v.has_voted);
        e = e2;
    }
    assert_eq!(e.votes, vec![2, 3, 2]);
    assert_eq!(e.total_voters, 7);
    assert_eq!(e.total_voters as u64, e.votes.iter().map(|&c| c as u64).sum());
}

#[test]
fn counter_can_reach_its_ceiling() {
    // A record one vote short of the counter ceiling still accepts that
    // last vote.
    let e = Election {
        authority: Identity { id: AUTHORITY },
        election_name: String::from("saturated"),
        candidates: vec![String::from("Alice")],
        votes: vec![u32::MAX - 1],
        start_time: 100,
        end_time: 200,
        is_active: true,
        total_voters: u32::MAX - 1,
    };
    let (e, _, r) = vote(e, Voter::default(), 1, 0, "attestation", 150);
    assert_eq!(r, Ok(()));
    assert_eq!(e.votes, vec![u32::MAX]);
    assert_eq!(e.total_voters, u32::MAX);
}
