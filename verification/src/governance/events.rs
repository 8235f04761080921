//! Events published by the governance contract.

use vstd::prelude::*;
use crate::accounts::AccountId;
use crate::governance::types::{GovernanceEvent, ProposalStatus, Vote};

verus! {

/// Publishes `created` when a proposal is created.
pub fn proposal_created(log: &mut Vec<GovernanceEvent>, id: u64, proposer: AccountId)
    ensures
        final(log)@ == old(log)@.push(GovernanceEvent::Created { id, proposer }),
{
    log.push(GovernanceEvent::Created { id, proposer });
}

/// Publishes `vote` when a vote is cast with the given weight.
pub fn vote_cast(log: &mut Vec<GovernanceEvent>, id: u64, voter: AccountId, vote: Vote, weight: i128)
    ensures
        final(log)@ == old(log)@.push(GovernanceEvent::VoteCast { id, voter, vote, weight }),
{
    log.push(GovernanceEvent::VoteCast { id, voter, vote, weight });
}

/// Publishes `final` when a proposal is finalised, executed or cancelled,
/// with its new status.
pub fn proposal_finalised(log: &mut Vec<GovernanceEvent>, id: u64, status: ProposalStatus)
    ensures
        final(log)@ == old(log)@.push(GovernanceEvent::Final { id, status }),
{
    log.push(GovernanceEvent::Final { id, status });
}

/// Publishes `cancelled` for a proposal.
pub fn proposal_cancelled(log: &mut Vec<GovernanceEvent>, id: u64)
    ensures
        final(log)@ == old(log)@.push(GovernanceEvent::Cancelled { id }),
{
    log.push(GovernanceEvent::Cancelled { id });
}

/// Publishes `qupdate` when a proposal's quorum is changed.
pub fn quorum_updated(log: &mut Vec<GovernanceEvent>, id: u64, new_quorum: i128)
    ensures
        final(log)@ == old(log)@.push(GovernanceEvent::QuorumUpdated { id, new_quorum }),
{
    log.push(GovernanceEvent::QuorumUpdated { id, new_quorum });
}

} // verus!
