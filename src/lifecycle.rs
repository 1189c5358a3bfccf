use vstd::prelude::*;
use vstd::utf8::encode_utf8;
use crate::tally::{passes, passes_rule, total_votes, total_weight};
use crate::types::{CreateProposal, Proposal, ProposalStatus, VoteChoice, VotingError};

verus! {

/// Longest title, in bytes.
pub const MAX_TITLE_LEN: usize = 32;

/// Longest description, in bytes.
pub const MAX_DESCRIPTION_LEN: usize = 128;

/// Length of a text in UTF-8 bytes.
pub open spec fn text_len(s: Seq<char>) -> nat {
    encode_utf8(s).len()
}

/// Whether the arguments of a creation are well formed: title and
/// description are non-empty and within their byte bounds, and the voting
/// period is positive.
pub open spec fn arguments_valid(title: String, description: String, voting_period: u64) -> bool {
    &&& title@.len() > 0
    &&& text_len(title@) <= MAX_TITLE_LEN
    &&& description@.len() > 0
    &&& text_len(description@) <= MAX_DESCRIPTION_LEN
    &&& voting_period > 0
}

/// Why a proposal cannot be opened with these arguments at time `now`, if it
/// cannot: malformed arguments, or an expiry time past 64 bits.
pub open spec fn creation_error(
    title: String,
    description: String,
    voting_period: u64,
    now: u64,
) -> Option<VotingError> {
    if !arguments_valid(title, description, voting_period) {
        Some(VotingError::InvalidInput)
    } else if now + voting_period > u64::MAX {
        Some(VotingError::ArithmeticOverflow)
    } else {
        None
    }
}

/// Checks that the arguments of a creation are well formed.
pub fn check_arguments(title: &String, description: &String, voting_period: u64) -> (r: bool)
    ensures
        r == arguments_valid(*title, *description, voting_period),
{
    !title.as_str().is_empty() && fits_len(title, MAX_TITLE_LEN) && !description.as_str().is_empty()
        && fits_len(description, MAX_DESCRIPTION_LEN) && voting_period > 0
}

/// The proposal that a successful creation opens.
pub open spec fn opened(
    creator: crate::types::Identity,
    title: String,
    description: String,
    voting_period: u64,
    now: u64,
) -> Proposal {
    Proposal {
        creator,
        title,
        description,
        status: ProposalStatus::Active,
        created_at: now,
        expires_at: (now + voting_period) as u64,
        yes_votes: 0,
        no_votes: 0,
        abstain_votes: 0,
    }
}

/// The tally counter that a choice adds to.
pub open spec fn counter(p: Proposal, choice: VoteChoice) -> u64 {
    match choice {
        VoteChoice::Yes => p.yes_votes,
        VoteChoice::No => p.no_votes,
        VoteChoice::Abstain => p.abstain_votes,
    }
}

/// `p` with `weight` added to the counter of `choice`.
pub open spec fn add_weight(p: Proposal, choice: VoteChoice, weight: u64) -> Proposal {
    match choice {
        VoteChoice::Yes => Proposal { yes_votes: (p.yes_votes + weight) as u64, ..p },
        VoteChoice::No => Proposal { no_votes: (p.no_votes + weight) as u64, ..p },
        VoteChoice::Abstain => Proposal { abstain_votes: (p.abstain_votes + weight) as u64, ..p },
    }
}

/// Why a vote of `weight` at time `now` is not admitted on `p`, if it is not.
pub open spec fn admission_error(p: Proposal, now: u64, weight: u64) -> Option<VotingError> {
    if p.status != ProposalStatus::Active {
        Some(VotingError::ProposalNotActive)
    } else if now >= p.expires_at {
        Some(VotingError::VotingPeriodEnded)
    } else if weight == 0 {
        Some(VotingError::InvalidInput)
    } else {
        None
    }
}

/// The outcome of a vote on `p`: the updated proposal, or the error.
/// `already_voted` tells whether the voter holds a record on `p`.
pub open spec fn vote_outcome(
    p: Proposal,
    already_voted: bool,
    now: u64,
    choice: VoteChoice,
    weight: u64,
) -> Result<Proposal, VotingError> {
    match admission_error(p, now, weight) {
        Some(e) => Err(e),
        None => if already_voted {
            Err(VotingError::DuplicateVote)
        } else if counter(p, choice) + weight > u64::MAX {
            Err(VotingError::ArithmeticOverflow)
        } else {
            Ok(add_weight(p, choice, weight))
        },
    }
}

/// Why `p` cannot be executed (`execute`) or rejected (`!execute`) at time `now`,
/// if it cannot.
pub open spec fn resolution_error(p: Proposal, now: u64, execute: bool) -> Option<VotingError> {
    if now < p.expires_at {
        Some(VotingError::VotingPeriodNotEnded)
    } else if total_weight(p) > u64::MAX {
        Some(VotingError::ArithmeticOverflow)
    } else if total_weight(p) == 0 {
        Some(VotingError::NoVotes)
    } else if execute && !passes_rule(p.yes_votes as int, total_weight(p)) {
        Some(VotingError::ProposalDidNotPass)
    } else if !execute && passes_rule(p.yes_votes as int, total_weight(p)) {
        Some(VotingError::ProposalAlreadyPassed)
    } else if p.status != ProposalStatus::Active {
        Some(VotingError::ProposalNotActive)
    } else {
        None
    }
}

/// Whether `s` is at most `max` bytes long.
fn fits_len(s: &String, max: usize) -> (r: bool)
    ensures
        r == (text_len(s@) <= max),
{
    s.as_str().as_bytes().len() <= max
}

impl Proposal {
    /// Opens a proposal of `ctx.creator`, created now and expiring after
    /// `voting_period`, with all tallies zero.
    pub fn open(ctx: &CreateProposal, title: String, description: String, voting_period: u64) -> (r:
        Result<Proposal, VotingError>)
        ensures
            r == (match creation_error(title, description, voting_period, ctx.now) {
                Some(e) => Err(e),
                None => Ok(opened(ctx.creator, title, description, voting_period, ctx.now)),
            }),
    {
        if !check_arguments(&title, &description, voting_period) {
            return Err(VotingError::InvalidInput);
        }
        let expires_at = match ctx.now.checked_add(voting_period) {
            Some(t) => t,
            None => {
                return Err(VotingError::ArithmeticOverflow);
            },
        };
        Ok(
            Proposal {
                creator: ctx.creator,
                title,
                description,
                status: ProposalStatus::Active,
                created_at: ctx.now,
                expires_at,
                yes_votes: 0,
                no_votes: 0,
                abstain_votes: 0,
            },
        )
    }

    /// Checks, in order, that the proposal is active, that its voting period
    /// has not ended at `now`, and that `weight` is positive.
    pub fn admit_vote(&self, now: u64, weight: u64) -> (r: Result<(), VotingError>)
        ensures
            r == (match admission_error(*self, now, weight) {
                Some(e) => Err(e),
                None => Ok(()),
            }),
    {
        if self.status != ProposalStatus::Active {
            Err(VotingError::ProposalNotActive)
        } else if now >= self.expires_at {
            Err(VotingError::VotingPeriodEnded)
        } else if weight == 0 {
            Err(VotingError::InvalidInput)
        } else {
            Ok(())
        }
    }

    /// Adds `weight` to the counter of `choice`, unless that overflows.
    pub fn add_vote(&mut self, choice: VoteChoice, weight: u64) -> (r: Result<(), VotingError>)
        ensures
            counter(*old(self), choice) + weight <= u64::MAX ==> r is Ok && *final(self)
                == add_weight(*old(self), choice, weight),
            counter(*old(self), choice) + weight > u64::MAX ==> r == Err::<(), VotingError>(
                VotingError::ArithmeticOverflow,
            ) && *final(self) == *old(self),
    {
        let current = match choice {
            VoteChoice::Yes => self.yes_votes,
            VoteChoice::No => self.no_votes,
            VoteChoice::Abstain => self.abstain_votes,
        };
        let sum = match current.checked_add(weight) {
            Some(s) => s,
            None => {
                return Err(VotingError::ArithmeticOverflow);
            },
        };
        match choice {
            VoteChoice::Yes => self.yes_votes = sum,
            VoteChoice::No => self.no_votes = sum,
            VoteChoice::Abstain => self.abstain_votes = sum,
        }
        Ok(())
    }

    /// Applies the resolution rules; on success sets the status to `Executed`
    /// (`execute`) or `Rejected` (`!execute`) and returns the total weight.
    pub fn resolve(&mut self, now: u64, execute: bool) -> (r: Result<u64, VotingError>)
        ensures
            r == (match resolution_error(*old(self), now, execute) {
                Some(e) => Err(e),
                None => Ok(total_weight(*old(self)) as u64),
            }),
            r is Err ==> *final(self) == *old(self),
            r is Ok ==> *final(self) == (Proposal {
                status: if execute {
                    ProposalStatus::Executed
                } else {
                    ProposalStatus::Rejected
                },
                ..*old(self)
            }),
    {
        if now < self.expires_at {
            return Err(VotingError::VotingPeriodNotEnded);
        }
        let total = match total_votes(self) {
            Some(t) => t,
            None => {
                return Err(VotingError::ArithmeticOverflow);
            },
        };
        if total == 0 {
            return Err(VotingError::NoVotes);
        }
        let passed = passes(self.yes_votes, total);
        if execute && !passed {
            return Err(VotingError::ProposalDidNotPass);
        }
        if !execute && passed {
            return Err(VotingError::ProposalAlreadyPassed);
        }
        if self.status != ProposalStatus::Active {
            return Err(VotingError::ProposalNotActive);
        }
        self.status = if execute {
            ProposalStatus::Executed
        } else {
            ProposalStatus::Rejected
        };
        Ok(total)
    }
}

} // verus!
