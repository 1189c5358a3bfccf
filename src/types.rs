use vstd::prelude::*;

verus! {

/// A verified caller identity: the 32 bytes of a public key.
#[derive(Clone, Copy, Debug, PartialEq, Eq)]
pub struct Identity {
    pub bytes: [u8; 32],
}

impl View for Identity {
    type V = Seq<u8>;

    open spec fn view(&self) -> Seq<u8> {
        self.bytes@
    }
}

/// Compares two identities byte by byte.
pub fn same_identity(a: &Identity, b: &Identity) -> (r: bool)
    ensures
        r == (a@ == b@),
{
    let mut i: usize = 0;
    while i < 32
        invariant
            0 <= i <= 32,
            a@.len() == 32,
            b@.len() == 32,
            forall|j: int| 0 <= j < i ==> a@[j] == b@[j],
        decreases 32 - i,
    {
        if a.bytes[i] != b.bytes[i] {
            return false;
        }
        i = i + 1;
    }
    assert(a@ =~= b@);
    true
}

/// The key of a proposal: its creator and its title. No creator can hold two
/// proposals under one title.
#[derive(Clone, Debug, PartialEq, Eq)]
pub struct ProposalId {
    pub creator: Identity,
    pub title: String,
}

impl View for ProposalId {
    type V = (Seq<u8>, Seq<char>);

    open spec fn view(&self) -> (Seq<u8>, Seq<char>) {
        (self.creator@, self.title@)
    }
}

impl ProposalId {
    pub fn duplicate(&self) -> (r: ProposalId)
        ensures
            r == *self,
    {
        ProposalId { creator: self.creator, title: self.title.clone() }
    }

    pub fn same(&self, other: &ProposalId) -> (r: bool)
        ensures
            r == (self@ == other@),
    {
        same_identity(&self.creator, &other.creator) && self.title == other.title
    }
}

#[derive(Clone, Copy, Debug, PartialEq, Eq, Structural)]
pub enum ProposalStatus {
    Active,
    Executed,
    Rejected,
}

#[derive(Clone, Copy, Debug, PartialEq, Eq, Structural)]
pub enum VoteChoice {
    Yes,
    No,
    Abstain,
}

#[derive(Clone, Copy, Debug, PartialEq, Eq, Structural)]
pub enum VotingError {
    /// Malformed arguments: empty or oversized text, zero voting period, zero weight.
    InvalidInput,
    /// No proposal is stored under the given key.
    NotFound,
    /// A proposal is already stored under the key.
    DuplicateProposal,
    /// The voter has already voted on the proposal.
    DuplicateVote,
    ProposalNotActive,
    VotingPeriodEnded,
    VotingPeriodNotEnded,
    NoVotes,
    ProposalDidNotPass,
    ProposalAlreadyPassed,
    /// A tally counter, their sum, or the expiry time would exceed 64 bits.
    ArithmeticOverflow,
}

impl VotingError {
    /// A human-readable description of the error.
    pub fn message(&self) -> &'static str {
        match self {
            VotingError::InvalidInput => "Invalid input",
            VotingError::NotFound => "Proposal not found",
            VotingError::DuplicateProposal => "Proposal already exists",
            VotingError::DuplicateVote => "Voter has already voted on this proposal",
            VotingError::ProposalNotActive => "Proposal is not active",
            VotingError::VotingPeriodEnded => "Voting period has ended",
            VotingError::VotingPeriodNotEnded => "Voting period has not ended",
            VotingError::NoVotes => "No votes have been cast",
            VotingError::ProposalDidNotPass => "Proposal did not pass (less than 50% yes votes)",
            VotingError::ProposalAlreadyPassed => "Proposal already passed",
            VotingError::ArithmeticOverflow => "Arithmetic overflow",
        }
    }
}

/// A governance item subject to a timed vote.
#[derive(Clone, Debug)]
pub struct Proposal {
    pub creator: Identity,
    pub title: String,
    pub description: String,
    pub status: ProposalStatus,
    pub created_at: u64,
    pub expires_at: u64,
    pub yes_votes: u64,
    pub no_votes: u64,
    pub abstain_votes: u64,
}

impl Proposal {
    pub open spec fn key(&self) -> (Seq<u8>, Seq<char>) {
        (self.creator@, self.title@)
    }

    /// A copy of this proposal.
    pub fn clone_proposal(&self) -> (r: Proposal)
        ensures
            r == *self,
    {
        Proposal {
            creator: self.creator,
            title: self.title.clone(),
            description: self.description.clone(),
            status: self.status,
            created_at: self.created_at,
            expires_at: self.expires_at,
            yes_votes: self.yes_votes,
            no_votes: self.no_votes,
            abstain_votes: self.abstain_votes,
        }
    }

    pub fn id(&self) -> (r: ProposalId)
        ensures
            r.creator == self.creator,
            r.title == self.title,
            r@ == self.key(),
    {
        ProposalId { creator: self.creator, title: self.title.clone() }
    }
}

/// The record of one identity's vote on one proposal.
#[derive(Clone, Debug)]
pub struct VoterRecord {
    pub voter: Identity,
    pub proposal: ProposalId,
    pub vote_choice: VoteChoice,
    pub weight: u64,
    pub voted_at: u64,
}

impl VoterRecord {
    /// The composite key (proposal, voter).
    pub open spec fn key(&self) -> ((Seq<u8>, Seq<char>), Seq<u8>) {
        (self.proposal@, self.voter@)
    }
}

/// The caller and time of a proposal creation.
#[derive(Clone, Copy, Debug)]
pub struct CreateProposal {
    pub creator: Identity,
    pub now: u64,
}

/// The proposal, voter and time of a vote.
#[derive(Clone, Debug)]
pub struct CastVote {
    pub proposal: ProposalId,
    pub voter: Identity,
    pub now: u64,
}

/// The proposal, caller and time of a resolution (execution or rejection).
#[derive(Clone, Debug)]
pub struct ExecuteProposal {
    pub proposal: ProposalId,
    pub executor: Identity,
    pub now: u64,
}

/// Notification of a successful creation.
#[derive(Clone, Debug)]
pub struct ProposalCreated {
    pub proposal: ProposalId,
    pub creator: Identity,
    pub title: String,
}

/// Notification of a successful vote.
#[derive(Clone, Debug)]
pub struct VoteCast {
    pub proposal: ProposalId,
    pub voter: Identity,
    pub choice: VoteChoice,
    pub weight: u64,
}

/// Notification of a successful execution.
#[derive(Clone, Debug)]
pub struct ProposalExecuted {
    pub proposal: ProposalId,
    pub yes_votes: u64,
    pub no_votes: u64,
    pub total_votes: u64,
}

/// Notification of a successful rejection.
#[derive(Clone, Debug)]
pub struct ProposalRejected {
    pub proposal: ProposalId,
    pub yes_votes: u64,
    pub no_votes: u64,
    pub total_votes: u64,
}

} // verus!
