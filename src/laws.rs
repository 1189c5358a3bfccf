use vstd::prelude::*;
use crate::ledger::{recorded_weight, settled_soundly, Ledger};
use crate::lifecycle::{
    admission_error, counter, creation_error, opened, resolution_error, vote_outcome,
};
use crate::tally::{passes_rule, total_weight};
use crate::types::{CastVote, Identity, Proposal, ProposalStatus, VoteChoice, VoterRecord, VotingError};

verus! {

/// A successful creation opens an active proposal that expires `voting_period`
/// after its creation, with every tally at zero.
pub proof fn created_proposal_is_open(
    creator: Identity,
    title: String,
    description: String,
    voting_period: u64,
    now: u64,
)
    requires
        creation_error(title, description, voting_period, now) is None,
    ensures
        ({
            let p = opened(creator, title, description, voting_period, now);
            &&& p.status == ProposalStatus::Active
            &&& p.created_at == now
            &&& p.expires_at == p.created_at + voting_period
            &&& p.yes_votes == 0 && p.no_votes == 0 && p.abstain_votes == 0
        }),
{
}

/// A well-formed store holds at most one voter record per (proposal, voter).
pub proof fn one_record_per_voter(ledger: Ledger, i: int, j: int)
    requires
        ledger.wf(),
        0 <= i < ledger.records@.len(),
        0 <= j < ledger.records@.len(),
        ledger.records@[i].key() == ledger.records@[j].key(),
    ensures
        i == j,
{
    if i < j {
        assert(ledger.records@[i].key() != ledger.records@[j].key());
    } else if j < i {
        assert(ledger.records@[j].key() != ledger.records@[i].key());
    }
}

/// Once a vote of `ctx.voter` on `ctx.proposal` is recorded, every further
/// admissible vote of that voter on that proposal fails with `DuplicateVote`,
/// which leaves the store unchanged.
pub proof fn second_vote_is_duplicate(
    before: Ledger,
    after: Ledger,
    ctx: CastVote,
    choice: VoteChoice,
    weight: u64,
    p: Proposal,
    now: u64,
    next_choice: VoteChoice,
    next_weight: u64,
)
    requires
        after.records@ == before.records@.push(
            VoterRecord {
                voter: ctx.voter,
                proposal: ctx.proposal,
                vote_choice: choice,
                weight,
                voted_at: ctx.now,
            },
        ),
        admission_error(p, now, next_weight) is None,
    ensures
        after.has_record((ctx.proposal@, ctx.voter@)),
        vote_outcome(p, after.has_record((ctx.proposal@, ctx.voter@)), now, next_choice, next_weight)
            == Err::<Proposal, VotingError>(VotingError::DuplicateVote),
{
    let k = before.records@.len() as int;
    assert(after.records@[k].key() == (ctx.proposal@, ctx.voter@));
}

/// A vote on an active proposal whose voting period has ended at `now` fails
/// with `VotingPeriodEnded`.
pub proof fn vote_after_expiry_fails(
    p: Proposal,
    already_voted: bool,
    now: u64,
    choice: VoteChoice,
    weight: u64,
)
    requires
        p.status == ProposalStatus::Active,
        now >= p.expires_at,
    ensures
        vote_outcome(p, already_voted, now, choice, weight) == Err::<Proposal, VotingError>(
            VotingError::VotingPeriodEnded,
        ),
{
}

/// Execution and rejection before the end of the voting period fail with
/// `VotingPeriodNotEnded`.
pub proof fn resolution_before_expiry_fails(p: Proposal, now: u64, execute: bool)
    requires
        now < p.expires_at,
    ensures
        resolution_error(p, now, execute) == Some(VotingError::VotingPeriodNotEnded),
{
}

/// Execution and rejection of a proposal without votes fail with `NoVotes`
/// once the voting period has ended.
pub proof fn resolution_without_votes_fails(p: Proposal, now: u64, execute: bool)
    requires
        now >= p.expires_at,
        total_weight(p) == 0,
    ensures
        resolution_error(p, now, execute) == Some(VotingError::NoVotes),
{
}

/// An exact tie passes the majority rule.
pub proof fn tie_passes(yes: int, total: int)
    requires
        0 < yes,
        total == 2 * yes,
    ensures
        passes_rule(yes, total),
{
    assert(yes * 100 == 50 * total);
    assert(yes * 100 / total == 50) by (nonlinear_arith)
        requires
            yes * 100 == 50 * total,
            0 < total,
    ;
}

/// An executed or rejected proposal is final: every further execution,
/// rejection or vote on it fails, and a failed call changes nothing.
pub proof fn settled_proposal_is_final(
    p: Proposal,
    now: u64,
    execute: bool,
    already_voted: bool,
    choice: VoteChoice,
    weight: u64,
)
    requires
        p.status == ProposalStatus::Executed || p.status == ProposalStatus::Rejected,
    ensures
        resolution_error(p, now, execute) is Some,
        vote_outcome(p, already_voted, now, choice, weight) == Err::<Proposal, VotingError>(
            VotingError::ProposalNotActive,
        ),
{
}

/// An admissible first vote whose weight would push its counter past the
/// 64-bit maximum fails with `ArithmeticOverflow`, which changes nothing.
pub proof fn overflowing_vote_fails(p: Proposal, now: u64, choice: VoteChoice, weight: u64)
    requires
        admission_error(p, now, weight) is None,
        counter(p, choice) + weight > u64::MAX,
    ensures
        vote_outcome(p, false, now, choice, weight) == Err::<Proposal, VotingError>(
            VotingError::ArithmeticOverflow,
        ),
{
}

/// A resolution succeeds only on an active proposal: the status moves from
/// `Active` to `Executed` or `Rejected`, and never back or between the two.
pub proof fn resolution_leaves_active_only(p: Proposal, now: u64, execute: bool)
    requires
        resolution_error(p, now, execute) is None,
    ensures
        p.status == ProposalStatus::Active,
{
}

/// A successful vote is cast on an active proposal, keeps its status and
/// times, and grows exactly the counter of its choice, by its weight.
pub proof fn vote_grows_one_counter(
    p: Proposal,
    already_voted: bool,
    now: u64,
    choice: VoteChoice,
    weight: u64,
)
    requires
        vote_outcome(p, already_voted, now, choice, weight) is Ok,
    ensures
        ({
            let q = vote_outcome(p, already_voted, now, choice, weight)->Ok_0;
            &&& p.status == ProposalStatus::Active
            &&& q.status == p.status && q.created_at == p.created_at && q.expires_at == p.expires_at
            &&& counter(q, choice) == counter(p, choice) + weight
            &&& forall|c: VoteChoice| c != choice ==> counter(q, c) == counter(p, c)
            &&& q.yes_votes >= p.yes_votes && q.no_votes >= p.no_votes && q.abstain_votes
                >= p.abstain_votes
        }),
{
}

/// In a well-formed store, each tally counter of a proposal is the total
/// weight of the voter records on it for that choice.
pub proof fn tallies_match_records(ledger: Ledger, i: int, choice: VoteChoice)
    requires
        ledger.wf(),
        0 <= i < ledger.proposals@.len(),
    ensures
        counter(ledger.proposals@[i], choice) == recorded_weight(
            ledger.records@,
            ledger.proposals@[i].key(),
            choice,
        ),
{
}

/// Once a creation under (creator, title) has succeeded, the key is taken:
/// every later creation under it with well-formed arguments fails with
/// `DuplicateProposal`, whatever its description, period or time.
pub proof fn second_creation_is_duplicate(
    before: Ledger,
    after: Ledger,
    creator: Identity,
    title: String,
    description: String,
    voting_period: u64,
    now: u64,
)
    requires
        after.proposals@ == before.proposals@.push(
            opened(creator, title, description, voting_period, now),
        ),
    ensures
        after.has_proposal((creator@, title@)),
{
    let n = before.proposals@.len() as int;
    assert(after.proposals@[n].key() == (creator@, title@));
}

/// In a well-formed store, a settled proposal whose voting period has ended
/// refuses a second settlement: an executed one fails execution with
/// `ProposalNotActive` and rejection with `ProposalAlreadyPassed`; a rejected
/// one fails rejection with `ProposalNotActive` and execution with
/// `ProposalDidNotPass`.
pub proof fn settled_proposal_refuses_again(ledger: Ledger, i: int, now: u64)
    requires
        ledger.wf(),
        0 <= i < ledger.proposals@.len(),
        ledger.proposals@[i].status != ProposalStatus::Active,
        now >= ledger.proposals@[i].expires_at,
    ensures
        ({
            let p = ledger.proposals@[i];
            &&& p.status == ProposalStatus::Executed ==> resolution_error(p, now, true) == Some(
                VotingError::ProposalNotActive,
            ) && resolution_error(p, now, false) == Some(VotingError::ProposalAlreadyPassed)
            &&& p.status == ProposalStatus::Rejected ==> resolution_error(p, now, false) == Some(
                VotingError::ProposalNotActive,
            ) && resolution_error(p, now, true) == Some(VotingError::ProposalDidNotPass)
        }),
{
    assert(settled_soundly(ledger.proposals@[i]));
}

} // verus!
