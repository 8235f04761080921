//! Laws of the governance contract, stated over the transitions that the
//! contract's entry points are proved to perform.

use vstd::prelude::*;
use crate::accounts::AccountId;
use crate::governance::contract::{
    GovernanceState, cancel_error, cancelled_state, cast_vote_error, create_proposal_error, create_proposal_overflows,
    execute_error, final_status, finalise_error, proposal_created_state, proposal_inv,
    quorum_set_state, spec_initialize, status_set_state, status_step, tally, update_quorum_error,
    create_proposal_param_error, vote_counted_state, vote_error,
};
use crate::governance::types::{ContractError, GovernanceEvent, ProposalStatus, Vote};
use crate::token::contract::TokenState;

verus! {

/// A freshly deployed contract satisfies the invariant.
pub proof fn law_fresh_state_inv()
    ensures
        GovernanceState::fresh().inv(),
{
}

/// A call that is refused leaves the state as it was, which respects the
/// lifecycle.
pub proof fn law_lifecycle_reflexive(s: GovernanceState)
    ensures
        GovernanceState::lifecycle_respected(s, s),
{
    assert(s.events.subrange(0, s.events.len() as int) =~= s.events);
}

/// Initialisation keeps the invariant and the lifecycle.
pub proof fn law_initialize_preserves(
    s: GovernanceState,
    admin: AccountId,
    voting_token: AccountId,
    min_proposal_balance: i128,
    proposal_cooldown: u64,
)
    requires
        s.inv(),
    ensures
        spec_initialize(s, admin, voting_token, min_proposal_balance, proposal_cooldown).1.inv(),
        GovernanceState::lifecycle_respected(
            s,
            spec_initialize(s, admin, voting_token, min_proposal_balance, proposal_cooldown).1,
        ),
{
    let post = spec_initialize(s, admin, voting_token, min_proposal_balance, proposal_cooldown).1;
    assert(post.storage.proposals == s.storage.proposals);
    assert(post.events.subrange(0, s.events.len() as int) =~= s.events);
}

/// Once initialised, the contract refuses to be initialised again, by
/// anyone, and nothing changes.
pub proof fn law_initialize_only_once(
    s: GovernanceState,
    admin: AccountId,
    voting_token: AccountId,
    min_proposal_balance: i128,
    proposal_cooldown: u64,
)
    requires
        s.storage.admin is Some,
    ensures
        spec_initialize(s, admin, voting_token, min_proposal_balance, proposal_cooldown) == (
        Err::<(), ContractError>(ContractError::AlreadyInitialized), s),
{
}

/// Creating a proposal keeps the invariant and the lifecycle, gives the new
/// proposal an id that no stored proposal has, and publishes one event.
pub proof fn law_create_proposal_preserves(
    s: GovernanceState,
    proposer: AccountId,
    title: Seq<u8>,
    description: Seq<u8>,
    quorum: i128,
    duration: u64,
    now: u64,
    balance: i128,
)
    requires
        s.inv(),
        create_proposal_error(
            s.storage,
            proposer,
            title.len() as int,
            description.len() as int,
            quorum,
            duration,
            now,
            balance,
        ) is None,
        !create_proposal_overflows(
            s.storage,
            proposer,
            title.len() as int,
            description.len() as int,
            quorum,
            duration,
            now,
            balance,
        ),
    ensures
        !s.storage.proposals.contains_key((s.storage.count() + 1) as u64),
        proposal_created_state(s, proposer, title, description, quorum, duration, now).inv(),
        GovernanceState::lifecycle_respected(
            s,
            proposal_created_state(s, proposer, title, description, quorum, duration, now),
        ),
        proposal_created_state(s, proposer, title, description, quorum, duration, now).events.len()
            == s.events.len() + 1,
{
    let post = proposal_created_state(s, proposer, title, description, quorum, duration, now);
    let id = (s.storage.count() + 1) as u64;
    assert forall|k: u64| #[trigger] post.storage.proposals.contains_key(k) implies 1 <= k
        <= post.storage.count() && post.storage.proposals[k].id == k && proposal_inv(
        post.storage.proposals[k],
    ) by {
        if k != id {
            assert(s.storage.proposals.contains_key(k));
        }
    }
    assert forall|k: u64, voter: AccountId| #[trigger]
        post.storage.voted.contains((k, voter)) implies post.storage.proposals.contains_key(k) by {
        assert(s.storage.voted.contains((k, voter)));
    }
    assert forall|k: u64| #[trigger] s.storage.proposals.contains_key(k) implies post.storage.proposals.contains_key(k)
        && status_step(s.storage.proposals[k].status, post.storage.proposals[k].status) by {
        assert(k != id);
    }
    assert(post.events.subrange(0, s.events.len() as int) =~= s.events);
}

/// Counting a vote keeps the invariant and the lifecycle, touches no other
/// proposal and no vote record of another proposal, and publishes one event.
pub proof fn law_cast_vote_preserves(
    s: GovernanceState,
    voter: AccountId,
    proposal_id: u64,
    vote: Vote,
    now: u64,
    weight: i128,
)
    requires
        s.inv(),
        cast_vote_error(s.storage, voter, proposal_id, vote, now, weight) is None,
    ensures
        vote_counted_state(s, voter, proposal_id, vote, weight).inv(),
        GovernanceState::lifecycle_respected(
            s,
            vote_counted_state(s, voter, proposal_id, vote, weight),
        ),
        forall|other: u64| #[trigger]
            s.storage.proposals.contains_key(other) && other != proposal_id ==> vote_counted_state(
                s,
                voter,
                proposal_id,
                vote,
                weight,
            ).storage.proposals[other] == s.storage.proposals[other],
        forall|other: u64, someone: AccountId|
            other != proposal_id ==> (#[trigger] vote_counted_state(
                s,
                voter,
                proposal_id,
                vote,
                weight,
            ).storage.voted.contains((other, someone)) == s.storage.voted.contains((other, someone))),
        vote_counted_state(s, voter, proposal_id, vote, weight).storage.voted.contains(
            (proposal_id, voter),
        ),
        tally(vote_counted_state(s, voter, proposal_id, vote, weight).storage.proposals[proposal_id], vote)
            == tally(s.storage.proposals[proposal_id], vote) + weight,
        vote_counted_state(s, voter, proposal_id, vote, weight).events.len() == s.events.len() + 1,
{
    let post = vote_counted_state(s, voter, proposal_id, vote, weight);
    assert(s.storage.proposals.contains_key(proposal_id));
    assert(s.storage.proposals[proposal_id].id == proposal_id);
    assert forall|k: u64| #[trigger] post.storage.proposals.contains_key(k) implies 1 <= k
        <= post.storage.count() && post.storage.proposals[k].id == k && proposal_inv(
        post.storage.proposals[k],
    ) by {
        assert(s.storage.proposals.contains_key(k));
    }
    assert forall|k: u64, who: AccountId| #[trigger]
        post.storage.voted.contains((k, who)) implies post.storage.proposals.contains_key(k) by {
        if (k, who) != (proposal_id, voter) {
            assert(s.storage.voted.contains((k, who)));
        }
    }
    assert(post.events.subrange(0, s.events.len() as int) =~= s.events);
}

/// Whoever has voted on a proposal cannot vote on it again: after a counted
/// vote, every further vote of the same voter on the same proposal is
/// refused, with `AlreadyVoted` while the voting period lasts.
pub proof fn law_vote_at_most_once(
    s: GovernanceState,
    voter: AccountId,
    proposal_id: u64,
    first: Vote,
    first_now: u64,
    first_weight: i128,
    second: Vote,
    second_now: u64,
    second_weight: i128,
)
    requires
        cast_vote_error(s.storage, voter, proposal_id, first, first_now, first_weight) is None,
    ensures
        ({
            let post = vote_counted_state(s, voter, proposal_id, first, first_weight);
            &&& cast_vote_error(post.storage, voter, proposal_id, second, second_now, second_weight)
                is Some
            &&& second_now < s.storage.proposals[proposal_id].end_time ==> cast_vote_error(
                post.storage,
                voter,
                proposal_id,
                second,
                second_now,
                second_weight,
            ) == Some(ContractError::AlreadyVoted)
        }),
{
    let post = vote_counted_state(s, voter, proposal_id, first, first_weight);
    assert(post.storage.voted.contains((proposal_id, voter)));
    assert(post.storage.proposals.contains_key(proposal_id));
    assert(post.storage.proposals[proposal_id].end_time == s.storage.proposals[proposal_id].end_time);
}

/// Finalising keeps the invariant and the lifecycle: the proposal becomes
/// `Passed` exactly when its votes reach the quorum and the yes votes exceed
/// the no votes, `Rejected` otherwise, and one event is published.
pub proof fn law_finalise_preserves(s: GovernanceState, proposal_id: u64, now: u64)
    requires
        s.inv(),
        finalise_error(s.storage, proposal_id, now) is None,
    ensures
        ({
            let post = status_set_state(
                s,
                proposal_id,
                final_status(s.storage.proposals[proposal_id]),
            );
            &&& post.inv()
            &&& GovernanceState::lifecycle_respected(s, post)
            &&& (post.storage.proposals[proposal_id].status == ProposalStatus::Passed
                <==> s.storage.proposals[proposal_id].passes())
            &&& post.events.len() == s.events.len() + 1
        }),
{
    let status = final_status(s.storage.proposals[proposal_id]);
    law_status_change_preserves(s, proposal_id, status);
}

/// Executing keeps the invariant and the lifecycle and publishes one event.
pub proof fn law_execute_preserves(s: GovernanceState, admin: AccountId, proposal_id: u64)
    requires
        s.inv(),
        execute_error(s.storage, admin, proposal_id) is None,
    ensures
        status_set_state(s, proposal_id, ProposalStatus::Executed).inv(),
        GovernanceState::lifecycle_respected(
            s,
            status_set_state(s, proposal_id, ProposalStatus::Executed),
        ),
        status_set_state(s, proposal_id, ProposalStatus::Executed).events.len() == s.events.len() + 1,
{
    law_status_change_preserves(s, proposal_id, ProposalStatus::Executed);
}

/// Cancelling keeps the invariant and the lifecycle and publishes two
/// events: `final` with `Cancelled`, then `cancelled`.
pub proof fn law_cancel_preserves(s: GovernanceState, admin: AccountId, proposal_id: u64)
    requires
        s.inv(),
        cancel_error(s.storage, admin, proposal_id) is None,
    ensures
        cancelled_state(s, proposal_id).inv(),
        GovernanceState::lifecycle_respected(s, cancelled_state(s, proposal_id)),
        cancelled_state(s, proposal_id).events == s.events.push(
            GovernanceEvent::Final { id: proposal_id, status: ProposalStatus::Cancelled },
        ).push(GovernanceEvent::Cancelled { id: proposal_id }),
{
    law_status_change_preserves(s, proposal_id, ProposalStatus::Cancelled);
    let post = cancelled_state(s, proposal_id);
    assert(post.events.subrange(0, s.events.len() as int) =~= s.events);
}

/// Changing a quorum keeps the invariant and the lifecycle and publishes one
/// event.
pub proof fn law_update_quorum_preserves(
    s: GovernanceState,
    admin: AccountId,
    proposal_id: u64,
    new_quorum: i128,
)
    requires
        s.inv(),
        update_quorum_error(s.storage, admin, proposal_id, new_quorum) is None,
    ensures
        quorum_set_state(s, proposal_id, new_quorum).inv(),
        GovernanceState::lifecycle_respected(s, quorum_set_state(s, proposal_id, new_quorum)),
        quorum_set_state(s, proposal_id, new_quorum).events.len() == s.events.len() + 1,
{
    let post = quorum_set_state(s, proposal_id, new_quorum);
    assert(s.storage.proposals.contains_key(proposal_id));
    assert forall|k: u64| #[trigger] post.storage.proposals.contains_key(k) implies 1 <= k
        <= post.storage.count() && post.storage.proposals[k].id == k && proposal_inv(
        post.storage.proposals[k],
    ) by {
        assert(s.storage.proposals.contains_key(k));
    }
    assert forall|k: u64, who: AccountId| #[trigger]
        post.storage.voted.contains((k, who)) implies post.storage.proposals.contains_key(k) by {
        assert(s.storage.voted.contains((k, who)));
    }
    assert(post.events.subrange(0, s.events.len() as int) =~= s.events);
}

/// A status change allowed by `status_step`, made to an existing proposal
/// that passes whenever it becomes `Passed` or `Executed`, keeps the
/// invariant and the lifecycle.
proof fn law_status_change_preserves(s: GovernanceState, proposal_id: u64, status: ProposalStatus)
    requires
        s.inv(),
        s.storage.proposals.contains_key(proposal_id),
        status_step(s.storage.proposals[proposal_id].status, status),
        status == ProposalStatus::Passed || status == ProposalStatus::Executed ==> s.storage.proposals[proposal_id].passes(),
        status != s.storage.proposals[proposal_id].status,
    ensures
        status_set_state(s, proposal_id, status).inv(),
        GovernanceState::lifecycle_respected(s, status_set_state(s, proposal_id, status)),
        status_set_state(s, proposal_id, status).storage.proposals[proposal_id].status == status,
        status_set_state(s, proposal_id, status).events.len() == s.events.len() + 1,
{
    let post = status_set_state(s, proposal_id, status);
    assert forall|k: u64| #[trigger] post.storage.proposals.contains_key(k) implies 1 <= k
        <= post.storage.count() && post.storage.proposals[k].id == k && proposal_inv(
        post.storage.proposals[k],
    ) by {
        assert(s.storage.proposals.contains_key(k));
    }
    assert forall|k: u64, who: AccountId| #[trigger]
        post.storage.voted.contains((k, who)) implies post.storage.proposals.contains_key(k) by {
        assert(s.storage.voted.contains((k, who)));
    }
    assert(post.events.subrange(0, s.events.len() as int) =~= s.events);
}

/// Only the administrator may execute, cancel or change a quorum: any other
/// caller of an initialised contract is refused with `NotAdmin`, before
/// anything about the proposal is checked.
pub proof fn law_admin_only(s: GovernanceState, caller: AccountId, proposal_id: u64, new_quorum: i128)
    requires
        s.storage.admin is Some,
        s.storage.admin != Some(caller),
    ensures
        execute_error(s.storage, caller, proposal_id) == Some(ContractError::NotAdmin),
        cancel_error(s.storage, caller, proposal_id) == Some(ContractError::NotAdmin),
        update_quorum_error(s.storage, caller, proposal_id, new_quorum) == Some(ContractError::NotAdmin),
{
}

/// `cast_vote` with, as its weight, the balance that a token state holds
/// for the voter: a non-positive balance is refused with `NoVotingPower`,
/// and an accepted vote adds exactly that balance to the chosen tally. This
/// relates `cast_vote`'s contract to a token state only; that the weight is
/// read from the voting token contract is the host's part.
pub proof fn law_vote_with_token_balance(
    s: GovernanceState,
    token: TokenState,
    voter: AccountId,
    proposal_id: u64,
    vote: Vote,
    now: u64,
)
    requires
        s.inv(),
        vote_error(s.storage, voter, proposal_id, now) is None,
    ensures
        token.storage.balance(voter) <= 0 ==> cast_vote_error(
            s.storage,
            voter,
            proposal_id,
            vote,
            now,
            token.storage.balance(voter),
        ) == Some(ContractError::NoVotingPower),
        cast_vote_error(s.storage, voter, proposal_id, vote, now, token.storage.balance(voter))
            is None ==> tally(
            vote_counted_state(s, voter, proposal_id, vote, token.storage.balance(voter)).storage.proposals[proposal_id],
            vote,
        ) == tally(s.storage.proposals[proposal_id], vote) + token.storage.balance(voter),
{
    assert(s.storage.proposals.contains_key(proposal_id));
}

/// The checks that the host runs before reading a balance agree with the
/// calls they precede: a refusal they report is the refusal of the call,
/// whatever balance would have been read.
pub proof fn law_prechecks_agree(
    s: GovernanceState,
    account: AccountId,
    title_len: int,
    desc_len: int,
    quorum: i128,
    duration: u64,
    proposal_id: u64,
    vote: Vote,
    now: u64,
    balance: i128,
)
    ensures
        create_proposal_param_error(s.storage, title_len, desc_len, quorum, duration) is Some
            ==> create_proposal_error(
            s.storage,
            account,
            title_len,
            desc_len,
            quorum,
            duration,
            now,
            balance,
        ) == create_proposal_param_error(s.storage, title_len, desc_len, quorum, duration),
        vote_error(s.storage, account, proposal_id, now) is Some ==> cast_vote_error(
            s.storage,
            account,
            proposal_id,
            vote,
            now,
            balance,
        ) == vote_error(s.storage, account, proposal_id, now),
{
}

/// Under the invariant, a proposal is stored exactly when its id lies
/// between 1 and the proposal count, so `get_proposal` and `has_voted` are
/// refused with `ProposalNotFound` exactly when the id is 0 or above the
/// count.
pub proof fn law_proposal_found_iff_in_range(s: GovernanceState, proposal_id: u64)
    requires
        s.inv(),
    ensures
        s.storage.proposals.contains_key(proposal_id) <==> (1 <= proposal_id
            <= s.storage.count()),
{
}

} // verus!
