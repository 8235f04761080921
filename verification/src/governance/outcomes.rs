//! What each governance entry point does, stated field by field over the
//! stored values: these laws pin the transitions named in the entry points'
//! contracts to the rules of the contract, independently of how those
//! transitions are written.

use vstd::prelude::*;
use crate::accounts::AccountId;
use crate::governance::contract::{
    GovernanceState, cancelled_state, cast_vote_error, create_proposal_error,
    create_proposal_overflows, create_proposal_param_error, final_status, finalise_error,
    proposal_created_state, quorum_set_state, spec_initialize, status_set_state,
    vote_counted_state, vote_error, MAX_DESC_LEN, MAX_TITLE_LEN, execute_error, cancel_error,
    update_quorum_error,
};
use crate::governance::types::{ContractError, GovernanceEvent, ProposalStatus, Vote};

verus! {

/// Initialising an uninitialised contract succeeds; it stores the
/// administrator and the voting token, stores each positive setting
/// (minimum balance, cooldown) whatever the other one is, leaves a
/// non-positive setting as it was, sets the version to 1.0.0, and touches
/// no proposal, vote record or event.
pub proof fn law_initialize_stores_settings(
    s: GovernanceState,
    admin: AccountId,
    voting_token: AccountId,
    min_proposal_balance: i128,
    proposal_cooldown: u64,
)
    requires
        s.storage.admin is None,
    ensures
        ({
            let (r, post) = spec_initialize(
                s,
                admin,
                voting_token,
                min_proposal_balance,
                proposal_cooldown,
            );
            &&& r == Ok::<(), ContractError>(())
            &&& post.storage.admin == Some(admin)
            &&& post.storage.voting_token == Some(voting_token)
            &&& min_proposal_balance > 0 ==> post.storage.min_proposal_balance == Some(
                min_proposal_balance,
            ) && post.storage.min_balance() == min_proposal_balance
            &&& min_proposal_balance <= 0 ==> post.storage.min_proposal_balance
                == s.storage.min_proposal_balance
            &&& proposal_cooldown > 0 ==> post.storage.proposal_cooldown == Some(proposal_cooldown)
                && post.storage.cooldown() == proposal_cooldown
            &&& proposal_cooldown == 0 ==> post.storage.proposal_cooldown
                == s.storage.proposal_cooldown
            &&& post.storage.version == Some((1u32, 0u32, 0u32))
            &&& post.storage.proposal_count == s.storage.proposal_count
            &&& post.storage.proposals == s.storage.proposals
            &&& post.storage.voted == s.storage.voted
            &&& post.storage.last_proposal == s.storage.last_proposal
            &&& post.events == s.events
        }),
{
}

/// The refusals of `create_proposal` that depend on its parameters alone:
/// a non-positive quorum, a zero duration, a title over 256 bytes or a
/// description over 4096 bytes, in that order.
pub proof fn law_create_proposal_parameter_rules(
    s: GovernanceState,
    proposer: AccountId,
    title_len: int,
    desc_len: int,
    quorum: i128,
    duration: u64,
    now: u64,
    balance: i128,
)
    ensures
        ({
            let e = create_proposal_error(
                s.storage,
                proposer,
                title_len,
                desc_len,
                quorum,
                duration,
                now,
                balance,
            );
            &&& quorum <= 0 ==> e == Some(ContractError::InvalidQuorum)
            &&& quorum > 0 && duration == 0 ==> e == Some(ContractError::InvalidDuration)
            &&& quorum > 0 && duration > 0 && title_len > 256 ==> e == Some(
                ContractError::TitleTooLong,
            )
            &&& quorum > 0 && duration > 0 && title_len <= 256 && desc_len > 4096 ==> e == Some(
                ContractError::DescriptionTooLong,
            )
            &&& e is None ==> quorum > 0 && duration > 0 && title_len <= 256 && desc_len <= 4096
                && s.storage.voting_token is Some
        }),
{
    assert(MAX_TITLE_LEN == 256 && MAX_DESC_LEN == 4096);
}

/// An accepted proposal gets id `count + 1`, becomes the proposal count,
/// holds exactly the given proposer, texts and quorum, no votes, starts
/// `Active` at `now` and ends at `now + duration`. The proposer's latest
/// proposal time becomes `now`, so with a cooldown `c > 0` every further
/// proposal of the same proposer at a time `t` with `now <= t < now + c`,
/// that passes the other checks, is refused with `ProposalCooldown`.
pub proof fn law_create_proposal_records_proposal_and_time(
    s: GovernanceState,
    proposer: AccountId,
    title: Seq<u8>,
    description: Seq<u8>,
    quorum: i128,
    duration: u64,
    now: u64,
    balance: i128,
)
    requires
        create_proposal_error(
            s.storage,
            proposer,
            title.len() as int,
            description.len() as int,
            quorum,
            duration,
            now,
            balance,
        ) is None,
        !create_proposal_overflows(
            s.storage,
            proposer,
            title.len() as int,
            description.len() as int,
            quorum,
            duration,
            now,
            balance,
        ),
    ensures
        ({
            let post = proposal_created_state(s, proposer, title, description, quorum, duration, now);
            let id = s.storage.count() + 1;
            let p = post.storage.proposals[id as u64];
            &&& post.storage.count() == id
            &&& post.storage.proposals.contains_key(id as u64)
            &&& p.id == id && p.proposer == proposer && p.title == title && p.description
                == description
            &&& p.votes_yes == 0 && p.votes_no == 0 && p.votes_abstain == 0
            &&& p.quorum == quorum && p.start_time == now && p.end_time == now + duration
            &&& p.status == ProposalStatus::Active
            &&& forall|k: u64|
                k != id ==> (#[trigger] post.storage.proposals.contains_key(k)
                    == s.storage.proposals.contains_key(k) && (s.storage.proposals.contains_key(k)
                    ==> post.storage.proposals[k] == s.storage.proposals[k]))
            &&& post.storage.last_proposal.contains_key(proposer)
            &&& post.storage.last_proposal[proposer] == now
            &&& forall|q: AccountId|
                q != proposer ==> #[trigger] post.storage.last_proposal.get(q)
                    == s.storage.last_proposal.get(q)
            &&& post.storage.voted == s.storage.voted
            &&& post.events == s.events.push(GovernanceEvent::Created { id: id as u64, proposer })
            &&& forall|t: u64, title_len: int, desc_len: int, quorum2: i128, duration2: u64, balance2: i128|
                #![trigger create_proposal_error(post.storage, proposer, title_len, desc_len, quorum2, duration2, t, balance2)]
                s.storage.cooldown() > 0 && now <= t && t < now + s.storage.cooldown()
                    && create_proposal_param_error(
                    post.storage,
                    title_len,
                    desc_len,
                    quorum2,
                    duration2,
                ) is None && !(post.storage.min_balance() > 0 && balance2
                    < post.storage.min_balance()) ==> create_proposal_error(
                    post.storage,
                    proposer,
                    title_len,
                    desc_len,
                    quorum2,
                    duration2,
                    t,
                    balance2,
                ) == Some(ContractError::ProposalCooldown)
        }),
{
}

/// A vote on an `Active` proposal whose end time is still ahead, by a voter
/// who has not voted on it, with a voting token stored and a positive weight
/// that keeps the chosen tally within `i128`, is accepted: the weight is
/// added to the chosen tally and to no other, the vote is recorded, and one
/// `vote` event is published.
pub proof fn law_vote_accepted_in_window(
    s: GovernanceState,
    voter: AccountId,
    proposal_id: u64,
    vote: Vote,
    now: u64,
    weight: i128,
)
    requires
        s.storage.proposals.contains_key(proposal_id),
        s.storage.proposals[proposal_id].status == ProposalStatus::Active,
        now < s.storage.proposals[proposal_id].end_time,
        !s.storage.voted.contains((proposal_id, voter)),
        s.storage.voting_token is Some,
        weight > 0,
        vote == Vote::Yes ==> s.storage.proposals[proposal_id].votes_yes + weight <= i128::MAX,
        vote == Vote::No ==> s.storage.proposals[proposal_id].votes_no + weight <= i128::MAX,
        vote == Vote::Abstain ==> s.storage.proposals[proposal_id].votes_abstain + weight
            <= i128::MAX,
    ensures
        vote_error(s.storage, voter, proposal_id, now) is None,
        cast_vote_error(s.storage, voter, proposal_id, vote, now, weight) is None,
        ({
            let p = s.storage.proposals[proposal_id];
            let post = vote_counted_state(s, voter, proposal_id, vote, weight);
            let q = post.storage.proposals[p.id];
            &&& post.storage.proposals.contains_key(p.id)
            &&& q.votes_yes == p.votes_yes + (if vote == Vote::Yes { weight as int } else { 0 })
            &&& q.votes_no == p.votes_no + (if vote == Vote::No { weight as int } else { 0 })
            &&& q.votes_abstain == p.votes_abstain + (if vote == Vote::Abstain { weight as int } else { 0 })
            &&& q.id == p.id && q.proposer == p.proposer && q.quorum == p.quorum && q.status
                == p.status && q.start_time == p.start_time && q.end_time == p.end_time
                && q.title == p.title && q.description == p.description
            &&& post.storage.voted == s.storage.voted.insert((proposal_id, voter))
            &&& post.events == s.events.push(
                GovernanceEvent::VoteCast { id: proposal_id, voter, vote, weight },
            )
        }),
{
}

/// Which refusal a vote gets, stated over the stored values: an unknown
/// proposal is `ProposalNotFound`; `ProposalNotActive` only for a proposal
/// that is not `Active`; `VotingPeriodEnded` only once the end time is
/// reached; `AlreadyVoted` only for a recorded voter; `NoVotingPower` only
/// for a weight that is not positive.
pub proof fn law_vote_refusals(
    s: GovernanceState,
    voter: AccountId,
    proposal_id: u64,
    vote: Vote,
    now: u64,
    weight: i128,
)
    ensures
        ({
            let e = cast_vote_error(s.storage, voter, proposal_id, vote, now, weight);
            &&& !s.storage.proposals.contains_key(proposal_id) ==> e == Some(
                ContractError::ProposalNotFound,
            )
            &&& e == Some(ContractError::ProposalNotActive) ==> s.storage.proposals[proposal_id].status
                != ProposalStatus::Active
            &&& e == Some(ContractError::VotingPeriodEnded) ==> s.storage.proposals.contains_key(
                proposal_id,
            ) && now >= s.storage.proposals[proposal_id].end_time
            &&& e == Some(ContractError::AlreadyVoted) ==> s.storage.voted.contains(
                (proposal_id, voter),
            )
            &&& e == Some(ContractError::NoVotingPower) ==> weight <= 0
            &&& vote_error(s.storage, voter, proposal_id, now) == Some(
                ContractError::VotingPeriodEnded,
            ) ==> now >= s.storage.proposals[proposal_id].end_time
        }),
{
}

/// Finalisation decides by the tallies alone: the proposal becomes `Passed`
/// exactly when yes + no + abstain reaches the quorum and yes exceeds no,
/// and `Rejected` otherwise (so never `Passed` while yes does not exceed
/// no, whatever the abstentions). Nothing else about it, and no other
/// proposal, changes; one `final` event with the new status is published.
pub proof fn law_finalise_decides_by_tallies(s: GovernanceState, proposal_id: u64, now: u64)
    requires
        finalise_error(s.storage, proposal_id, now) is None,
    ensures
        ({
            let p = s.storage.proposals[proposal_id];
            let post = status_set_state(s, proposal_id, final_status(p));
            let q = post.storage.proposals[p.id];
            let passed = p.votes_yes + p.votes_no + p.votes_abstain >= p.quorum && p.votes_yes
                > p.votes_no;
            &&& s.storage.proposals.contains_key(proposal_id)
            &&& p.status == ProposalStatus::Active
            &&& now >= p.end_time
            &&& post.storage.proposals.contains_key(p.id)
            &&& q.status == (if passed {
                ProposalStatus::Passed
            } else {
                ProposalStatus::Rejected
            })
            &&& p.votes_yes <= p.votes_no ==> q.status == ProposalStatus::Rejected
            &&& q.votes_yes == p.votes_yes && q.votes_no == p.votes_no && q.votes_abstain
                == p.votes_abstain && q.quorum == p.quorum && q.id == p.id && q.proposer
                == p.proposer && q.title == p.title && q.description == p.description
                && q.start_time == p.start_time && q.end_time == p.end_time
            &&& forall|k: u64|
                k != p.id ==> #[trigger] post.storage.proposals.get(k)
                    == s.storage.proposals.get(k)
            &&& post.storage.voted == s.storage.voted
            &&& post.storage.proposal_count == s.storage.proposal_count
            &&& post.events == s.events.push(GovernanceEvent::Final { id: proposal_id, status: q.status })
        }),
{
}

/// A status change (execution or cancellation) sets the status of the
/// proposal and nothing else about it, leaves every other proposal, the
/// vote records and the count as they were, and publishes `final` with the
/// new status; a cancellation then also publishes `cancelled`.
pub proof fn law_status_changes(s: GovernanceState, proposal_id: u64, status: ProposalStatus)
    requires
        s.storage.proposals.contains_key(proposal_id),
    ensures
        ({
            let p = s.storage.proposals[proposal_id];
            let post = status_set_state(s, proposal_id, status);
            let q = post.storage.proposals[p.id];
            &&& post.storage.proposals.contains_key(p.id)
            &&& q.status == status
            &&& q.votes_yes == p.votes_yes && q.votes_no == p.votes_no && q.votes_abstain
                == p.votes_abstain && q.quorum == p.quorum && q.id == p.id && q.proposer
                == p.proposer && q.title == p.title && q.description == p.description
                && q.start_time == p.start_time && q.end_time == p.end_time
            &&& forall|k: u64|
                k != p.id ==> #[trigger] post.storage.proposals.get(k)
                    == s.storage.proposals.get(k)
            &&& post.storage.voted == s.storage.voted
            &&& post.storage.proposal_count == s.storage.proposal_count
            &&& post.events == s.events.push(GovernanceEvent::Final { id: proposal_id, status })
        }),
        ({
            let p = s.storage.proposals[proposal_id];
            let post = cancelled_state(s, proposal_id);
            &&& post.storage.proposals[p.id].status == ProposalStatus::Cancelled
            &&& post.storage == status_set_state(s, proposal_id, ProposalStatus::Cancelled).storage
            &&& post.events == s.events.push(
                GovernanceEvent::Final { id: proposal_id, status: ProposalStatus::Cancelled },
            ).push(GovernanceEvent::Cancelled { id: proposal_id })
        }),
{
}

/// Changing a quorum sets the quorum of the proposal and nothing else about
/// it, leaves every other proposal as it was, and publishes `qupdate`.
pub proof fn law_quorum_change(s: GovernanceState, proposal_id: u64, new_quorum: i128)
    requires
        s.storage.proposals.contains_key(proposal_id),
    ensures
        ({
            let p = s.storage.proposals[proposal_id];
            let post = quorum_set_state(s, proposal_id, new_quorum);
            let q = post.storage.proposals[p.id];
            &&& post.storage.proposals.contains_key(p.id)
            &&& q.quorum == new_quorum
            &&& q.votes_yes == p.votes_yes && q.votes_no == p.votes_no && q.votes_abstain
                == p.votes_abstain && q.status == p.status && q.id == p.id && q.proposer
                == p.proposer && q.title == p.title && q.description == p.description
                && q.start_time == p.start_time && q.end_time == p.end_time
            &&& forall|k: u64|
                k != p.id ==> #[trigger] post.storage.proposals.get(k)
                    == s.storage.proposals.get(k)
            &&& post.storage.voted == s.storage.voted
            &&& post.events == s.events.push(
                GovernanceEvent::QuorumUpdated { id: proposal_id, new_quorum },
            )
        }),
{
}

/// Once the parameters pass, a proposal is refused with
/// `InsufficientBalance` exactly when a positive minimum balance is set and
/// the proposer's balance is below it; otherwise with `ProposalCooldown`
/// exactly when a positive cooldown is set, the proposer has proposed
/// before, and `now` is before that proposal's time plus the cooldown;
/// otherwise it is accepted. Without a voting token it is refused with
/// `VotingTokenNotSet`.
pub proof fn law_create_proposal_admission(
    s: GovernanceState,
    proposer: AccountId,
    title_len: int,
    desc_len: int,
    quorum: i128,
    duration: u64,
    now: u64,
    balance: i128,
)
    requires
        quorum > 0,
        duration > 0,
        title_len <= 256,
        desc_len <= 4096,
    ensures
        ({
            let e = create_proposal_error(
                s.storage,
                proposer,
                title_len,
                desc_len,
                quorum,
                duration,
                now,
                balance,
            );
            let min = s.storage.min_balance();
            let cd = s.storage.cooldown();
            let short = min > 0 && balance < min;
            let cooling = cd > 0 && s.storage.last_proposal.contains_key(proposer) && now
                < s.storage.last_proposal[proposer] + cd;
            &&& s.storage.voting_token is None ==> e == Some(ContractError::VotingTokenNotSet)
            &&& s.storage.voting_token is Some ==> {
                &&& short ==> e == Some(ContractError::InsufficientBalance)
                &&& !short && cooling ==> e == Some(ContractError::ProposalCooldown)
                &&& !short && !cooling ==> e is None
            }
        }),
{
    assert(MAX_TITLE_LEN == 256 && MAX_DESC_LEN == 4096);
}

/// The refusals of a vote in order, stated over the stored values: unknown
/// proposal, proposal not `Active`, end time reached, voter already
/// recorded, no voting token, weight not positive, chosen tally overflowing.
pub proof fn law_vote_refusal_order(
    s: GovernanceState,
    voter: AccountId,
    proposal_id: u64,
    vote: Vote,
    now: u64,
    weight: i128,
)
    requires
        s.storage.proposals.contains_key(proposal_id),
    ensures
        ({
            let p = s.storage.proposals[proposal_id];
            let e = cast_vote_error(s.storage, voter, proposal_id, vote, now, weight);
            let tally = if vote == Vote::Yes {
                p.votes_yes
            } else if vote == Vote::No {
                p.votes_no
            } else {
                p.votes_abstain
            };
            &&& p.status != ProposalStatus::Active ==> e == Some(ContractError::ProposalNotActive)
            &&& p.status == ProposalStatus::Active && now >= p.end_time ==> e == Some(
                ContractError::VotingPeriodEnded,
            )
            &&& p.status == ProposalStatus::Active && now < p.end_time && s.storage.voted.contains(
                (proposal_id, voter),
            ) ==> e == Some(ContractError::AlreadyVoted)
            &&& p.status == ProposalStatus::Active && now < p.end_time
                && !s.storage.voted.contains((proposal_id, voter)) ==> {
                &&& s.storage.voting_token is None ==> e == Some(ContractError::VotingTokenNotSet)
                &&& s.storage.voting_token is Some && weight <= 0 ==> e == Some(
                    ContractError::NoVotingPower,
                )
                &&& s.storage.voting_token is Some && weight > 0 && tally + weight > i128::MAX
                    ==> e == Some(ContractError::VoteTallyOverflow)
                &&& s.storage.voting_token is Some && weight > 0 && tally + weight <= i128::MAX
                    ==> e is None
            }
        }),
{
}

/// The refusals of finalisation: unknown proposal, proposal not `Active`,
/// end time not yet reached; otherwise it is accepted.
pub proof fn law_finalise_refusals(s: GovernanceState, proposal_id: u64, now: u64)
    ensures
        !s.storage.proposals.contains_key(proposal_id) ==> finalise_error(s.storage, proposal_id, now)
            == Some(ContractError::ProposalNotFound),
        s.storage.proposals.contains_key(proposal_id) ==> {
            let p = s.storage.proposals[proposal_id];
            let e = finalise_error(s.storage, proposal_id, now);
            &&& p.status != ProposalStatus::Active ==> e == Some(ContractError::ProposalNotActive)
            &&& p.status == ProposalStatus::Active && now < p.end_time ==> e == Some(
                ContractError::VotingStillOpen,
            )
            &&& p.status == ProposalStatus::Active && now >= p.end_time ==> e is None
        },
{
}

/// The refusals of the administrator's calls: no administrator stored,
/// then a caller other than the administrator; then, for `update_quorum`, a
/// non-positive quorum; then an unknown proposal; then a proposal in the
/// wrong status (`Passed` for `execute`, `Active` for the others).
pub proof fn law_admin_call_refusals(
    s: GovernanceState,
    caller: AccountId,
    proposal_id: u64,
    new_quorum: i128,
)
    ensures
        s.storage.admin is None ==> execute_error(s.storage, caller, proposal_id) == Some(
            ContractError::AdminNotSet,
        ) && cancel_error(s.storage, caller, proposal_id) == Some(ContractError::AdminNotSet)
            && update_quorum_error(s.storage, caller, proposal_id, new_quorum) == Some(
            ContractError::AdminNotSet,
        ),
        s.storage.admin == Some(caller) ==> {
            let known = s.storage.proposals.contains_key(proposal_id);
            let st = s.storage.proposals[proposal_id].status;
            &&& !known ==> execute_error(s.storage, caller, proposal_id) == Some(
                ContractError::ProposalNotFound,
            ) && cancel_error(s.storage, caller, proposal_id) == Some(
                ContractError::ProposalNotFound,
            )
            &&& known ==> (execute_error(s.storage, caller, proposal_id) is None <==> st
                == ProposalStatus::Passed)
            &&& known && st != ProposalStatus::Passed ==> execute_error(s.storage, caller, proposal_id)
                == Some(ContractError::ProposalNotPassed)
            &&& known ==> (cancel_error(s.storage, caller, proposal_id) is None <==> st
                == ProposalStatus::Active)
            &&& known && st != ProposalStatus::Active ==> cancel_error(s.storage, caller, proposal_id)
                == Some(ContractError::ProposalNotActive)
            &&& new_quorum <= 0 ==> update_quorum_error(s.storage, caller, proposal_id, new_quorum)
                == Some(ContractError::InvalidQuorum)
            &&& new_quorum > 0 && !known ==> update_quorum_error(
                s.storage,
                caller,
                proposal_id,
                new_quorum,
            ) == Some(ContractError::ProposalNotFound)
            &&& new_quorum > 0 && known ==> (update_quorum_error(
                s.storage,
                caller,
                proposal_id,
                new_quorum,
            ) is None <==> st == ProposalStatus::Active)
            &&& new_quorum > 0 && known && st != ProposalStatus::Active ==> update_quorum_error(
                s.storage,
                caller,
                proposal_id,
                new_quorum,
            ) == Some(ContractError::ProposalNotActive)
        },
{
}

} // verus!
