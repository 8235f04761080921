//! Data types of the governance contract.

use vstd::prelude::*;
use crate::accounts::AccountId;

verus! {

/// Lifecycle state of a proposal.
#[derive(Clone, Copy, Debug, PartialEq, Eq, Structural)]
pub enum ProposalStatus {
    Active,
    Passed,
    Rejected,
    Executed,
    Cancelled,
}

/// A voter's choice.
#[derive(Clone, Copy, Debug, PartialEq, Eq, Structural)]
pub enum Vote {
    Yes,
    No,
    Abstain,
}

/// Every way in which a governance call is refused.
#[derive(Clone, Copy, Debug, PartialEq, Eq, Structural)]
pub enum ContractError {
    AlreadyInitialized,
    AdminNotSet,
    VotingTokenNotSet,
    NotAdmin,
    InvalidQuorum,
    InvalidDuration,
    TitleTooLong,
    DescriptionTooLong,
    InsufficientBalance,
    ProposalCooldown,
    ProposalNotFound,
    ProposalNotActive,
    VotingPeriodEnded,
    VotingStillOpen,
    AlreadyVoted,
    NoVotingPower,
    VoteTallyOverflow,
    ProposalNotPassed,
}

/// A governance proposal as it is stored. `title` and `description` hold
/// the UTF-8 bytes of the texts.
#[derive(Debug)]
pub struct Proposal {
    pub id: u64,
    pub proposer: AccountId,
    pub title: Vec<u8>,
    pub description: Vec<u8>,
    pub votes_yes: i128,
    pub votes_no: i128,
    pub votes_abstain: i128,
    /// Minimum total of votes (yes, no and abstain) required to pass.
    pub quorum: i128,
    pub start_time: u64,
    pub end_time: u64,
    pub status: ProposalStatus,
}

/// The mathematical value of a [`Proposal`].
pub struct ProposalView {
    pub id: u64,
    pub proposer: AccountId,
    pub title: Seq<u8>,
    pub description: Seq<u8>,
    pub votes_yes: i128,
    pub votes_no: i128,
    pub votes_abstain: i128,
    pub quorum: i128,
    pub start_time: u64,
    pub end_time: u64,
    pub status: ProposalStatus,
}

impl View for Proposal {
    type V = ProposalView;

    open spec fn view(&self) -> ProposalView {
        ProposalView {
            id: self.id,
            proposer: self.proposer,
            title: self.title@,
            description: self.description@,
            votes_yes: self.votes_yes,
            votes_no: self.votes_no,
            votes_abstain: self.votes_abstain,
            quorum: self.quorum,
            start_time: self.start_time,
            end_time: self.end_time,
            status: self.status,
        }
    }
}

impl ProposalView {
    /// Sum of all votes cast on the proposal.
    pub open spec fn total_votes(self) -> int {
        self.votes_yes + self.votes_no + self.votes_abstain
    }

    /// The outcome that finalisation gives: the quorum is reached and the
    /// yes votes outnumber the no votes.
    pub open spec fn passes(self) -> bool {
        self.total_votes() >= self.quorum && self.votes_yes > self.votes_no
    }

    /// The same proposal with the given status.
    pub open spec fn with_status(self, status: ProposalStatus) -> ProposalView {
        ProposalView { status, ..self }
    }

    /// The same proposal with the given quorum.
    pub open spec fn with_quorum(self, quorum: i128) -> ProposalView {
        ProposalView { quorum, ..self }
    }
}

impl Proposal {
    /// A copy of the proposal with the same value.
    pub fn duplicate(&self) -> (copy: Proposal)
        ensures
            copy@ == self@,
    {
        let title = self.title.clone();
        let description = self.description.clone();
        assert(title@ =~= self.title@);
        assert(description@ =~= self.description@);
        Proposal {
            id: self.id,
            proposer: self.proposer,
            title,
            description,
            votes_yes: self.votes_yes,
            votes_no: self.votes_no,
            votes_abstain: self.votes_abstain,
            quorum: self.quorum,
            start_time: self.start_time,
            end_time: self.end_time,
            status: self.status,
        }
    }
}

/// An event published by the governance contract.
#[derive(Clone, Copy, Debug, PartialEq, Eq, Structural)]
pub enum GovernanceEvent {
    /// Topics `("created", id)`, data `proposer`.
    Created { id: u64, proposer: AccountId },
    /// Topics `("vote", id)`, data `(voter, vote, weight)`.
    VoteCast { id: u64, voter: AccountId, vote: Vote, weight: i128 },
    /// Topics `("final", id)`, data `status`: finalisation, execution or cancellation.
    Final { id: u64, status: ProposalStatus },
    /// Topics `("cancelled", id)`, no data.
    Cancelled { id: u64 },
    /// Topics `("qupdate", id)`, data `new_quorum`.
    QuorumUpdated { id: u64, new_quorum: i128 },
}

} // verus!
