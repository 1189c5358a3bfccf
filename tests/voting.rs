use agent_tv_voting::{
    cast_vote, create_proposal, execute_proposal, passes, reject_proposal, total_votes,
    yes_percent, CastVote, CreateProposal, ExecuteProposal, Identity, Ledger, Proposal,
    ProposalId, ProposalStatus, VoteChoice, VotingError, MAX_DESCRIPTION_LEN, MAX_TITLE_LEN,
};

fn who(n: u8) -> Identity {
    Identity { bytes: [n; 32] }
}

fn key(creator: u8, title: &str) -> ProposalId {
    ProposalId { creator: who(creator), title: title.to_string() }
}

fn open(ledger: &mut Ledger, creator: u8, title: &str, now: u64, period: u64) -> ProposalId {
    let ctx = CreateProposal { creator: who(creator), now };
    create_proposal(ledger, &ctx, title.to_string(), "a pilot".to_string(), period).unwrap();
    key(creator, title)
}

fn vote(
    ledger: &mut Ledger,
    id: &ProposalId,
    voter: u8,
    now: u64,
    choice: VoteChoice,
    weight: u64,
) -> Result<(), VotingError> {
    let ctx = CastVote { proposal: id.clone(), voter: who(voter), now };
    cast_vote(ledger, &ctx, choice, weight).map(|_| ())
}

fn resolver(id: &ProposalId, now: u64) -> ExecuteProposal {
    ExecuteProposal { proposal: id.clone(), executor: who(99), now }
}

fn stored(ledger: &Ledger, id: &ProposalId) -> Proposal {
    ledger.get(id).unwrap().clone()
}

fn tallies(p: &Proposal) -> (u64, u64, u64, ProposalStatus) {
    (p.yes_votes, p.no_votes, p.abstain_votes, p.status)
}

#[test]
fn create_opens_active_proposal() {
    let mut ledger = Ledger::new();
    let ctx = CreateProposal { creator: who(1), now: 1000 };
    let ev = create_proposal(&mut ledger, &ctx, "Pilot".to_string(), "desc".to_string(), 100)
        .unwrap();
    assert_eq!(ev.creator, who(1));
    assert_eq!(ev.title, "Pilot");
    assert_eq!(ev.proposal, key(1, "Pilot"));
    let p = stored(&ledger, &key(1, "Pilot"));
    assert_eq!(p.status, ProposalStatus::Active);
    assert_eq!(p.created_at, 1000);
    assert_eq!(p.expires_at, 1100);
    assert_eq!(p.description, "desc");
    assert_eq!(tallies(&p), (0, 0, 0, ProposalStatus::Active));
}

#[test]
fn create_rejects_bad_arguments() {
    let mut ledger = Ledger::new();
    let ctx = CreateProposal { creator: who(1), now: 5 };
    let long_title = "t".repeat(MAX_TITLE_LEN + 1);
    let long_desc = "d".repeat(MAX_DESCRIPTION_LEN + 1);
    assert_eq!(
        create_proposal(&mut ledger, &ctx, "x".to_string(), String::new(), 0).unwrap_err(),
        VotingError::InvalidInput
    );
    assert_eq!(
        create_proposal(&mut ledger, &ctx, String::new(), String::new(), 10).unwrap_err(),
        VotingError::InvalidInput
    );
    assert_eq!(
        create_proposal(&mut ledger, &ctx, long_title, String::new(), 10).unwrap_err(),
        VotingError::InvalidInput
    );
    assert_eq!(
        create_proposal(&mut ledger, &ctx, "x".to_string(), long_desc, 10).unwrap_err(),
        VotingError::InvalidInput
    );
    assert_eq!(
        create_proposal(&mut ledger, &ctx, "x".to_string(), String::new(), 10).unwrap_err(),
        VotingError::InvalidInput
    );
    assert!(ledger.proposals.is_empty());
}

#[test]
fn create_accepts_longest_texts() {
    let mut ledger = Ledger::new();
    let ctx = CreateProposal { creator: who(1), now: 5 };
    let title = "t".repeat(MAX_TITLE_LEN);
    let desc = "d".repeat(MAX_DESCRIPTION_LEN);
    assert!(create_proposal(&mut ledger, &ctx, title, desc, 10).is_ok());
    assert_eq!(ledger.proposals.len(), 1);
}

#[test]
fn title_length_counts_bytes() {
    let mut ledger = Ledger::new();
    let ctx = CreateProposal { creator: who(1), now: 5 };
    // 17 two-byte characters: 34 bytes.
    let title = "é".repeat(17);
    assert_eq!(
        create_proposal(&mut ledger, &ctx, title, "d".to_string(), 10).unwrap_err(),
        VotingError::InvalidInput
    );
}

#[test]
fn create_rejects_expiry_overflow() {
    let mut ledger = Ledger::new();
    let ctx = CreateProposal { creator: who(1), now: u64::MAX - 5 };
    assert_eq!(
        create_proposal(&mut ledger, &ctx, "x".to_string(), "d".to_string(), 6).unwrap_err(),
        VotingError::ArithmeticOverflow
    );
    assert!(ledger.proposals.is_empty());
    assert!(create_proposal(&mut ledger, &ctx, "x".to_string(), "d".to_string(), 5).is_ok());
    assert_eq!(stored(&ledger, &key(1, "x")).expires_at, u64::MAX);
}

#[test]
fn create_rejects_duplicate_key() {
    let mut ledger = Ledger::new();
    open(&mut ledger, 1, "Pilot", 0, 100);
    let ctx = CreateProposal { creator: who(1), now: 50 };
    assert_eq!(
        create_proposal(&mut ledger, &ctx, "Pilot".to_string(), "other".to_string(), 7)
            .unwrap_err(),
        VotingError::DuplicateProposal
    );
    assert_eq!(ledger.proposals.len(), 1);
    assert_eq!(stored(&ledger, &key(1, "Pilot")).expires_at, 100);
    // Another creator may use the same title.
    open(&mut ledger, 2, "Pilot", 0, 100);
    assert_eq!(ledger.proposals.len(), 2);
}

#[test]
fn get_unknown_proposal_is_not_found() {
    let mut ledger = Ledger::new();
    open(&mut ledger, 1, "Pilot", 0, 100);
    assert_eq!(ledger.get(&key(1, "Other")).unwrap_err(), VotingError::NotFound);
    assert_eq!(ledger.get(&key(2, "Pilot")).unwrap_err(), VotingError::NotFound);
}

#[test]
fn votes_add_to_their_counters() {
    let mut ledger = Ledger::new();
    let id = open(&mut ledger, 1, "Pilot", 0, 100);
    let ctx = CastVote { proposal: id.clone(), voter: who(2), now: 10 };
    let ev = cast_vote(&mut ledger, &ctx, VoteChoice::Yes, 7).unwrap();
    assert_eq!(ev.proposal, id);
    assert_eq!(ev.voter, who(2));
    assert_eq!(ev.choice, VoteChoice::Yes);
    assert_eq!(ev.weight, 7);
    vote(&mut ledger, &id, 3, 20, VoteChoice::No, 3).unwrap();
    vote(&mut ledger, &id, 4, 99, VoteChoice::Abstain, 5).unwrap();
    assert_eq!(tallies(&stored(&ledger, &id)), (7, 3, 5, ProposalStatus::Active));
    assert_eq!(ledger.records.len(), 3);
    let rec = &ledger.records[0];
    assert_eq!(rec.voter, who(2));
    assert_eq!(rec.proposal, id);
    assert_eq!(rec.vote_choice, VoteChoice::Yes);
    assert_eq!(rec.weight, 7);
    assert_eq!(rec.voted_at, 10);
}

#[test]
fn vote_on_unknown_proposal_is_not_found() {
    let mut ledger = Ledger::new();
    assert_eq!(
        vote(&mut ledger, &key(1, "None"), 2, 0, VoteChoice::Yes, 1).unwrap_err(),
        VotingError::NotFound
    );
    assert!(ledger.records.is_empty());
}

#[test]
fn second_vote_is_duplicate() {
    let mut ledger = Ledger::new();
    let id = open(&mut ledger, 1, "Pilot", 0, 100);
    vote(&mut ledger, &id, 2, 10, VoteChoice::Yes, 5).unwrap();
    assert_eq!(
        vote(&mut ledger, &id, 2, 11, VoteChoice::No, 9).unwrap_err(),
        VotingError::DuplicateVote
    );
    assert_eq!(tallies(&stored(&ledger, &id)), (5, 0, 0, ProposalStatus::Active));
    assert_eq!(ledger.records.len(), 1);
    // The same voter may vote on another proposal.
    let other = open(&mut ledger, 1, "Other", 0, 100);
    vote(&mut ledger, &other, 2, 10, VoteChoice::No, 4).unwrap();
    assert_eq!(tallies(&stored(&ledger, &other)), (0, 4, 0, ProposalStatus::Active));
}

#[test]
fn vote_after_expiry_fails() {
    let mut ledger = Ledger::new();
    let id = open(&mut ledger, 1, "Pilot", 0, 100);
    vote(&mut ledger, &id, 2, 99, VoteChoice::Yes, 5).unwrap();
    assert_eq!(
        vote(&mut ledger, &id, 3, 100, VoteChoice::Yes, 5).unwrap_err(),
        VotingError::VotingPeriodEnded
    );
    assert_eq!(
        vote(&mut ledger, &id, 3, 500, VoteChoice::No, 5).unwrap_err(),
        VotingError::VotingPeriodEnded
    );
    assert_eq!(tallies(&stored(&ledger, &id)), (5, 0, 0, ProposalStatus::Active));
    assert_eq!(ledger.records.len(), 1);
}

#[test]
fn zero_weight_vote_is_invalid() {
    let mut ledger = Ledger::new();
    let id = open(&mut ledger, 1, "Pilot", 0, 100);
    assert_eq!(
        vote(&mut ledger, &id, 2, 10, VoteChoice::Yes, 0).unwrap_err(),
        VotingError::InvalidInput
    );
    assert!(ledger.records.is_empty());
    // The rejected attempt does not count as a vote.
    vote(&mut ledger, &id, 2, 10, VoteChoice::Yes, 1).unwrap();
}

#[test]
fn overflowing_vote_fails() {
    let mut ledger = Ledger::new();
    let id = open(&mut ledger, 1, "Pilot", 0, 100);
    vote(&mut ledger, &id, 2, 10, VoteChoice::No, u64::MAX - 1).unwrap();
    assert_eq!(
        vote(&mut ledger, &id, 3, 10, VoteChoice::No, 2).unwrap_err(),
        VotingError::ArithmeticOverflow
    );
    assert_eq!(tallies(&stored(&ledger, &id)), (0, u64::MAX - 1, 0, ProposalStatus::Active));
    assert_eq!(ledger.records.len(), 1);
    // The voter whose vote overflowed may still vote.
    vote(&mut ledger, &id, 3, 10, VoteChoice::No, 1).unwrap();
    assert_eq!(stored(&ledger, &id).no_votes, u64::MAX);
}

#[test]
fn resolution_before_expiry_fails() {
    let mut ledger = Ledger::new();
    let id = open(&mut ledger, 1, "Pilot", 0, 100);
    vote(&mut ledger, &id, 2, 10, VoteChoice::Yes, 5).unwrap();
    assert_eq!(
        execute_proposal(&mut ledger, &resolver(&id, 99)).unwrap_err(),
        VotingError::VotingPeriodNotEnded
    );
    assert_eq!(
        reject_proposal(&mut ledger, &resolver(&id, 0)).unwrap_err(),
        VotingError::VotingPeriodNotEnded
    );
    assert_eq!(stored(&ledger, &id).status, ProposalStatus::Active);
}

#[test]
fn resolution_without_votes_fails() {
    let mut ledger = Ledger::new();
    let id = open(&mut ledger, 1, "Pilot", 0, 100);
    assert_eq!(
        execute_proposal(&mut ledger, &resolver(&id, 100)).unwrap_err(),
        VotingError::NoVotes
    );
    assert_eq!(
        reject_proposal(&mut ledger, &resolver(&id, 200)).unwrap_err(),
        VotingError::NoVotes
    );
    assert_eq!(stored(&ledger, &id).status, ProposalStatus::Active);
}

#[test]
fn resolution_of_unknown_proposal_is_not_found() {
    let mut ledger = Ledger::new();
    assert_eq!(
        execute_proposal(&mut ledger, &resolver(&key(1, "x"), 0)).unwrap_err(),
        VotingError::NotFound
    );
    assert_eq!(
        reject_proposal(&mut ledger, &resolver(&key(1, "x"), 0)).unwrap_err(),
        VotingError::NotFound
    );
}

#[test]
fn majority_executes() {
    let mut ledger = Ledger::new();
    let id = open(&mut ledger, 1, "Pilot", 0, 100);
    vote(&mut ledger, &id, 2, 10, VoteChoice::Yes, 60).unwrap();
    vote(&mut ledger, &id, 3, 20, VoteChoice::No, 40).unwrap();
    let ev = execute_proposal(&mut ledger, &resolver(&id, 100)).unwrap();
    assert_eq!(ev.proposal, id);
    assert_eq!((ev.yes_votes, ev.no_votes, ev.total_votes), (60, 40, 100));
    assert_eq!(stored(&ledger, &id).status, ProposalStatus::Executed);
    assert_eq!(
        reject_proposal(&mut ledger, &resolver(&id, 150)).unwrap_err(),
        VotingError::ProposalAlreadyPassed
    );
    assert_eq!(tallies(&stored(&ledger, &id)), (60, 40, 0, ProposalStatus::Executed));
}

#[test]
fn minority_is_rejected() {
    let mut ledger = Ledger::new();
    let id = open(&mut ledger, 1, "Pilot", 0, 100);
    vote(&mut ledger, &id, 2, 10, VoteChoice::Yes, 40).unwrap();
    vote(&mut ledger, &id, 3, 20, VoteChoice::No, 60).unwrap();
    assert_eq!(
        execute_proposal(&mut ledger, &resolver(&id, 100)).unwrap_err(),
        VotingError::ProposalDidNotPass
    );
    assert_eq!(stored(&ledger, &id).status, ProposalStatus::Active);
    let ev = reject_proposal(&mut ledger, &resolver(&id, 100)).unwrap();
    assert_eq!((ev.yes_votes, ev.no_votes, ev.total_votes), (40, 60, 100));
    assert_eq!(ev.proposal, id);
    assert_eq!(stored(&ledger, &id).status, ProposalStatus::Rejected);
}

#[test]
fn tie_executes() {
    let mut ledger = Ledger::new();
    let id = open(&mut ledger, 1, "Pilot", 0, 100);
    vote(&mut ledger, &id, 2, 10, VoteChoice::Yes, 50).unwrap();
    vote(&mut ledger, &id, 3, 20, VoteChoice::No, 50).unwrap();
    assert_eq!(yes_percent(50, 100), 50);
    assert_eq!(
        reject_proposal(&mut ledger, &resolver(&id, 100)).unwrap_err(),
        VotingError::ProposalAlreadyPassed
    );
    execute_proposal(&mut ledger, &resolver(&id, 100)).unwrap();
    assert_eq!(stored(&ledger, &id).status, ProposalStatus::Executed);
}

#[test]
fn abstentions_count_toward_total() {
    let mut ledger = Ledger::new();
    let id = open(&mut ledger, 1, "Pilot", 0, 100);
    vote(&mut ledger, &id, 2, 10, VoteChoice::Yes, 49).unwrap();
    vote(&mut ledger, &id, 3, 20, VoteChoice::Abstain, 51).unwrap();
    assert_eq!(
        execute_proposal(&mut ledger, &resolver(&id, 100)).unwrap_err(),
        VotingError::ProposalDidNotPass
    );
    let ev = reject_proposal(&mut ledger, &resolver(&id, 100)).unwrap();
    assert_eq!((ev.yes_votes, ev.no_votes, ev.total_votes), (49, 0, 100));
}

#[test]
fn settled_proposals_are_final() {
    let mut ledger = Ledger::new();
    let id = open(&mut ledger, 1, "Pilot", 0, 100);
    vote(&mut ledger, &id, 2, 10, VoteChoice::Yes, 60).unwrap();
    vote(&mut ledger, &id, 3, 10, VoteChoice::No, 40).unwrap();
    execute_proposal(&mut ledger, &resolver(&id, 100)).unwrap();
    assert_eq!(
        execute_proposal(&mut ledger, &resolver(&id, 101)).unwrap_err(),
        VotingError::ProposalNotActive
    );
    assert_eq!(
        vote(&mut ledger, &id, 4, 50, VoteChoice::No, 10).unwrap_err(),
        VotingError::ProposalNotActive
    );
    assert_eq!(tallies(&stored(&ledger, &id)), (60, 40, 0, ProposalStatus::Executed));

    let lost = open(&mut ledger, 1, "Lost", 0, 100);
    vote(&mut ledger, &lost, 2, 10, VoteChoice::No, 1).unwrap();
    reject_proposal(&mut ledger, &resolver(&lost, 100)).unwrap();
    assert_eq!(
        reject_proposal(&mut ledger, &resolver(&lost, 100)).unwrap_err(),
        VotingError::ProposalNotActive
    );
    assert_eq!(
        execute_proposal(&mut ledger, &resolver(&lost, 100)).unwrap_err(),
        VotingError::ProposalDidNotPass
    );
    assert_eq!(
        vote(&mut ledger, &lost, 3, 10, VoteChoice::Yes, 1).unwrap_err(),
        VotingError::ProposalNotActive
    );
    assert_eq!(tallies(&stored(&ledger, &lost)), (0, 1, 0, ProposalStatus::Rejected));
}

#[test]
fn total_overflow_blocks_resolution() {
    let mut ledger = Ledger::new();
    let id = open(&mut ledger, 1, "Pilot", 0, 100);
    vote(&mut ledger, &id, 2, 10, VoteChoice::Yes, u64::MAX).unwrap();
    vote(&mut ledger, &id, 3, 10, VoteChoice::No, 1).unwrap();
    assert_eq!(total_votes(&stored(&ledger, &id)), None);
    assert_eq!(
        execute_proposal(&mut ledger, &resolver(&id, 100)).unwrap_err(),
        VotingError::ArithmeticOverflow
    );
    assert_eq!(stored(&ledger, &id).status, ProposalStatus::Active);
}

#[test]
fn percent_is_widened_and_rounded_down() {
    assert_eq!(yes_percent(u64::MAX, u64::MAX), 100);
    assert_eq!(yes_percent(u64::MAX / 2, u64::MAX), 49);
    assert_eq!(yes_percent(1, 3), 33);
    assert_eq!(yes_percent(2, 3), 66);
    assert_eq!(yes_percent(0, 7), 0);
    assert!(passes(1, 2));
    assert!(!passes(99, 199));
    assert!(passes(u64::MAX / 2 + 1, u64::MAX));
}

#[test]
fn totals_sum_all_counters() {
    let mut ledger = Ledger::new();
    let id = open(&mut ledger, 1, "Pilot", 0, 100);
    vote(&mut ledger, &id, 2, 10, VoteChoice::Yes, 3).unwrap();
    vote(&mut ledger, &id, 3, 10, VoteChoice::No, 4).unwrap();
    vote(&mut ledger, &id, 4, 10, VoteChoice::Abstain, 5).unwrap();
    assert_eq!(total_votes(&stored(&ledger, &id)), Some(12));
}

#[test]
fn error_messages() {
    assert_eq!(VotingError::NoVotes.message(), "No votes have been cast");
    assert_eq!(VotingError::ProposalNotActive.message(), "Proposal is not active");
    assert_eq!(
        VotingError::ProposalDidNotPass.message(),
        "Proposal did not pass (less than 50% yes votes)"
    );
}

#[test]
fn duplicate_key_comes_before_expiry_overflow() {
    let mut ledger = Ledger::new();
    open(&mut ledger, 1, "Pilot", 0, 100);
    let late = CreateProposal { creator: who(1), now: u64::MAX };
    assert_eq!(
        create_proposal(&mut ledger, &late, "Pilot".to_string(), "again".to_string(), 10)
            .unwrap_err(),
        VotingError::DuplicateProposal
    );
    assert_eq!(ledger.proposals.len(), 1);
    assert_eq!(stored(&ledger, &key(1, "Pilot")).expires_at, 100);
    // Malformed arguments are still reported first.
    assert_eq!(
        create_proposal(&mut ledger, &late, "Pilot".to_string(), "again".to_string(), 0)
            .unwrap_err(),
        VotingError::InvalidInput
    );
}

#[test]
fn tallies_equal_recorded_weights() {
    let mut ledger = Ledger::new();
    let a = open(&mut ledger, 1, "A", 0, 100);
    let b = open(&mut ledger, 1, "B", 0, 100);
    vote(&mut ledger, &a, 2, 10, VoteChoice::Yes, 3).unwrap();
    vote(&mut ledger, &b, 2, 10, VoteChoice::Yes, 8).unwrap();
    vote(&mut ledger, &a, 3, 10, VoteChoice::Yes, 4).unwrap();
    vote(&mut ledger, &a, 4, 10, VoteChoice::Abstain, 6).unwrap();
    let _ = vote(&mut ledger, &a, 3, 11, VoteChoice::No, 9);
    for id in [&a, &b] {
        let p = stored(&ledger, id);
        let sum = |choice: VoteChoice| -> u64 {
            ledger
                .records
                .iter()
                .filter(|r| &r.proposal == id && r.vote_choice == choice)
                .map(|r| r.weight)
                .sum()
        };
        assert_eq!(
            (p.yes_votes, p.no_votes, p.abstain_votes),
            (sum(VoteChoice::Yes), sum(VoteChoice::No), sum(VoteChoice::Abstain))
        );
    }
    assert_eq!(tallies(&stored(&ledger, &a)), (7, 0, 6, ProposalStatus::Active));
}
