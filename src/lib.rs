pub mod laws;
pub mod ledger;
pub mod lifecycle;
pub mod tally;
pub mod types;

pub use ledger::{cast_vote, create_proposal, execute_proposal, reject_proposal, Ledger};
pub use lifecycle::{MAX_DESCRIPTION_LEN, MAX_TITLE_LEN};
pub use tally::{passes, total_votes, yes_percent};
pub use types::{
    same_identity, CastVote, CreateProposal, ExecuteProposal, Identity, Proposal, ProposalCreated,
    ProposalExecuted, ProposalId, ProposalRejected, ProposalStatus, VoteCast, VoteChoice,
    VoterRecord, VotingError,
};
