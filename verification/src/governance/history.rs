//! The governance state against its event history: the proposal count is
//! the number of accepted creations, every tally is the sum of the weights
//! of the accepted votes with that choice, and a vote is recorded exactly
//! for the voters whose vote was accepted. The event log is the history:
//! each accepted creation publishes `created`, each accepted vote `vote`.

use vstd::prelude::*;
use crate::accounts::AccountId;
use crate::governance::contract::{
    GovernanceState, cancel_error, cancelled_state, cast_vote_error, create_proposal_error,
    execute_error, final_status, finalise_error, proposal_created_state, quorum_set_state,
    spec_initialize, status_set_state, tally, update_quorum_error, vote_counted_state,
};
use crate::governance::types::{GovernanceEvent, ProposalStatus, ProposalView, Vote};

verus! {

/// The weight that event `e` adds to the `vote` tally of proposal `id`.
pub open spec fn vote_weight(e: GovernanceEvent, id: u64, vote: Vote) -> int {
    match e {
        GovernanceEvent::VoteCast { id: i, vote: v, weight, .. } => if i == id && v == vote {
            weight as int
        } else {
            0
        },
        _ => 0,
    }
}

/// The sum of the weights of the accepted votes with choice `vote` on
/// proposal `id` in the history `events`.
pub open spec fn vote_weight_sum(events: Seq<GovernanceEvent>, id: u64, vote: Vote) -> int
    decreases events.len(),
{
    if events.len() == 0 {
        0
    } else {
        vote_weight_sum(events.drop_last(), id, vote) + vote_weight(events.last(), id, vote)
    }
}

/// 1 when `e` records an accepted creation, 0 otherwise.
pub open spec fn creation(e: GovernanceEvent) -> int {
    match e {
        GovernanceEvent::Created { .. } => 1,
        _ => 0,
    }
}

/// The number of accepted creations in the history `events`.
pub open spec fn created_count(events: Seq<GovernanceEvent>) -> int
    decreases events.len(),
{
    if events.len() == 0 {
        0
    } else {
        created_count(events.drop_last()) + creation(events.last())
    }
}

/// Whether `e` records an accepted vote of `voter` on proposal `id`.
pub open spec fn is_vote_of(e: GovernanceEvent, id: u64, voter: AccountId) -> bool {
    match e {
        GovernanceEvent::VoteCast { id: i, voter: w, .. } => i == id && w == voter,
        _ => false,
    }
}

/// Whether the history `events` holds an accepted vote of `voter` on
/// proposal `id`.
pub open spec fn voted_in(events: Seq<GovernanceEvent>, id: u64, voter: AccountId) -> bool {
    exists|i: int| 0 <= i < events.len() && #[trigger] is_vote_of(events[i], id, voter)
}

/// The state agrees with its history: the proposal count is the number of
/// accepted creations, each stored proposal's tallies are the sums of the
/// weights of the accepted votes on it, and a vote of `voter` on `id` is
/// recorded exactly when one was accepted.
pub open spec fn matches_history(s: GovernanceState) -> bool {
    &&& s.storage.count() == created_count(s.events)
    &&& forall|id: u64, vote: Vote|
        #![trigger tally(s.storage.proposals[id], vote)]
        s.storage.proposals.contains_key(id) ==> tally(s.storage.proposals[id], vote)
            == vote_weight_sum(s.events, id, vote)
    &&& forall|id: u64, voter: AccountId|
        #![trigger s.storage.voted.contains((id, voter))]
        #![trigger voted_in(s.events, id, voter)]
        s.storage.voted.contains((id, voter)) == voted_in(s.events, id, voter)
}

/// Appending one event to a history.
pub proof fn lemma_history_push(events: Seq<GovernanceEvent>, e: GovernanceEvent)
    ensures
        created_count(events.push(e)) == created_count(events) + creation(e),
        forall|id: u64, vote: Vote|
            #[trigger] vote_weight_sum(events.push(e), id, vote) == vote_weight_sum(events, id, vote)
                + vote_weight(e, id, vote),
        forall|id: u64, voter: AccountId|
            #[trigger] voted_in(events.push(e), id, voter) == (voted_in(events, id, voter)
                || is_vote_of(e, id, voter)),
{
    let pushed = events.push(e);
    assert(pushed.drop_last() =~= events);
    assert forall|id: u64, voter: AccountId|
        #[trigger] voted_in(pushed, id, voter) == (voted_in(events, id, voter) || is_vote_of(
            e,
            id,
            voter,
        )) by {
        if voted_in(pushed, id, voter) {
            let i = choose|i: int| 0 <= i < pushed.len() && #[trigger] is_vote_of(pushed[i], id, voter);
            if i < events.len() {
                assert(is_vote_of(events[i], id, voter));
            }
        }
        if voted_in(events, id, voter) {
            let i = choose|i: int| 0 <= i < events.len() && #[trigger] is_vote_of(events[i], id, voter);
            assert(is_vote_of(pushed[i], id, voter));
        }
        if is_vote_of(e, id, voter) {
            assert(is_vote_of(pushed[events.len() as int], id, voter));
        }
    }
}

/// A history without any accepted vote on proposal `id` sums to 0 for it.
pub proof fn lemma_no_votes_sum_zero(events: Seq<GovernanceEvent>, id: u64, vote: Vote)
    requires
        forall|voter: AccountId| !#[trigger] voted_in(events, id, voter),
    ensures
        vote_weight_sum(events, id, vote) == 0,
    decreases events.len(),
{
    if events.len() > 0 {
        let rest = events.drop_last();
        assert(events =~= rest.push(events.last()));
        lemma_history_push(rest, events.last());
        assert forall|voter: AccountId| !#[trigger] voted_in(rest, id, voter) by {
            assert(!voted_in(events, id, voter));
        }
        lemma_no_votes_sum_zero(rest, id, vote);
        if let GovernanceEvent::VoteCast { id: i, voter: w, .. } = events.last() {
            assert(!voted_in(events, id, w));
        }
    }
}

/// One step that publishes `e`, neither a creation nor a vote, and leaves
/// the count, the vote records, the set of proposals and every tally as they
/// were, keeps the state in agreement with its history.
proof fn lemma_quiet_step(s: GovernanceState, post: GovernanceState, e: GovernanceEvent)
    requires
        matches_history(s),
        creation(e) == 0,
        forall|id: u64, voter: AccountId| !is_vote_of(e, id, voter),
        forall|id: u64, vote: Vote| vote_weight(e, id, vote) == 0,
        post.events == s.events.push(e),
        post.storage.count() == s.storage.count(),
        post.storage.voted == s.storage.voted,
        forall|id: u64| #[trigger]
            post.storage.proposals.contains_key(id) ==> s.storage.proposals.contains_key(id)
                && post.storage.proposals[id].votes_yes == s.storage.proposals[id].votes_yes
                && post.storage.proposals[id].votes_no == s.storage.proposals[id].votes_no
                && post.storage.proposals[id].votes_abstain == s.storage.proposals[id].votes_abstain,
    ensures
        matches_history(post),
{
    lemma_history_push(s.events, e);
    assert forall|id: u64, vote: Vote|
        #![trigger tally(post.storage.proposals[id], vote)]
        post.storage.proposals.contains_key(id) implies tally(post.storage.proposals[id], vote)
        == vote_weight_sum(post.events, id, vote) by {
        assert(tally(post.storage.proposals[id], vote) == tally(s.storage.proposals[id], vote));
        assert(vote_weight_sum(post.events, id, vote) == vote_weight_sum(s.events, id, vote)
            + vote_weight(e, id, vote));
    }
    assert forall|id: u64, voter: AccountId|
        post.storage.voted.contains((id, voter)) == #[trigger] voted_in(post.events, id, voter) by {
        assert(voted_in(post.events, id, voter) == (voted_in(s.events, id, voter) || is_vote_of(
            e,
            id,
            voter,
        )));
    }
}

/// A freshly deployed contract agrees with its (empty) history.
pub proof fn law_fresh_matches_history()
    ensures
        matches_history(GovernanceState::fresh()),
{
    let s = GovernanceState::fresh();
    assert forall|id: u64, voter: AccountId|
        s.storage.voted.contains((id, voter)) == #[trigger] voted_in(s.events, id, voter) by {
        assert(!voted_in(s.events, id, voter));
    }
}

/// Initialisation keeps the state in agreement with its history.
pub proof fn law_initialize_keeps_history(
    s: GovernanceState,
    admin: AccountId,
    voting_token: AccountId,
    min_proposal_balance: i128,
    proposal_cooldown: u64,
)
    requires
        matches_history(s),
    ensures
        matches_history(
            spec_initialize(s, admin, voting_token, min_proposal_balance, proposal_cooldown).1,
        ),
{
}

/// An accepted creation adds one to the count and one `created` to the
/// history; the new proposal has no votes, and no history holds votes on it.
pub proof fn law_create_proposal_keeps_history(
    s: GovernanceState,
    proposer: AccountId,
    title: Seq<u8>,
    description: Seq<u8>,
    quorum: i128,
    duration: u64,
    now: u64,
    balance: i128,
)
    requires
        s.inv(),
        matches_history(s),
        create_proposal_error(
            s.storage,
            proposer,
            title.len() as int,
            description.len() as int,
            quorum,
            duration,
            now,
            balance,
        ) is None,
        s.storage.count() < u64::MAX,
    ensures
        matches_history(proposal_created_state(s, proposer, title, description, quorum, duration, now)),
{
    let post = proposal_created_state(s, proposer, title, description, quorum, duration, now);
    let id = (s.storage.count() + 1) as u64;
    let e = GovernanceEvent::Created { id, proposer };
    lemma_history_push(s.events, e);
    assert(!s.storage.proposals.contains_key(id));
    assert forall|k: u64, vote: Vote|
        #![trigger tally(post.storage.proposals[k], vote)]
        post.storage.proposals.contains_key(k) implies tally(post.storage.proposals[k], vote)
        == vote_weight_sum(post.events, k, vote) by {
        assert(vote_weight_sum(post.events, k, vote) == vote_weight_sum(s.events, k, vote));
        if k == id {
            assert forall|voter: AccountId| !#[trigger] voted_in(s.events, id, voter) by {
                assert(!s.storage.voted.contains((id, voter)));
            }
            lemma_no_votes_sum_zero(s.events, id, vote);
        } else {
            assert(tally(s.storage.proposals[k], vote) == vote_weight_sum(s.events, k, vote));
        }
    }
    assert forall|k: u64, voter: AccountId|
        post.storage.voted.contains((k, voter)) == #[trigger] voted_in(post.events, k, voter) by {
        assert(voted_in(post.events, k, voter) == voted_in(s.events, k, voter));
    }
}

/// An accepted vote adds its weight to the chosen tally and one `vote` to
/// the history, and records the voter.
pub proof fn law_cast_vote_keeps_history(
    s: GovernanceState,
    voter: AccountId,
    proposal_id: u64,
    vote: Vote,
    now: u64,
    weight: i128,
)
    requires
        s.inv(),
        matches_history(s),
        cast_vote_error(s.storage, voter, proposal_id, vote, now, weight) is None,
    ensures
        matches_history(vote_counted_state(s, voter, proposal_id, vote, weight)),
{
    let post = vote_counted_state(s, voter, proposal_id, vote, weight);
    let e = GovernanceEvent::VoteCast { id: proposal_id, voter, vote, weight };
    lemma_history_push(s.events, e);
    assert(s.storage.proposals.contains_key(proposal_id));
    assert(s.storage.proposals[proposal_id].id == proposal_id);
    assert forall|k: u64, v: Vote|
        #![trigger tally(post.storage.proposals[k], v)]
        post.storage.proposals.contains_key(k) implies tally(post.storage.proposals[k], v)
        == vote_weight_sum(post.events, k, v) by {
        assert(vote_weight_sum(post.events, k, v) == vote_weight_sum(s.events, k, v) + vote_weight(
            e,
            k,
            v,
        ));
        assert(tally(s.storage.proposals[k], v) == vote_weight_sum(s.events, k, v));
    }
    assert forall|k: u64, w: AccountId|
        post.storage.voted.contains((k, w)) == #[trigger] voted_in(post.events, k, w) by {
        assert(voted_in(post.events, k, w) == (voted_in(s.events, k, w) || is_vote_of(e, k, w)));
        assert(s.storage.voted.contains((k, w)) == voted_in(s.events, k, w));
    }
}

/// A status change on a stored proposal, publishing `final`, keeps the state
/// in agreement with its history.
proof fn lemma_status_change_keeps_history(s: GovernanceState, proposal_id: u64, status: ProposalStatus)
    requires
        s.inv(),
        matches_history(s),
        s.storage.proposals.contains_key(proposal_id),
    ensures
        matches_history(status_set_state(s, proposal_id, status)),
{
    let post = status_set_state(s, proposal_id, status);
    assert(s.storage.proposals[proposal_id].id == proposal_id);
    lemma_quiet_step(s, post, GovernanceEvent::Final { id: proposal_id, status });
}

/// Finalising keeps the state in agreement with its history.
pub proof fn law_finalise_keeps_history(s: GovernanceState, proposal_id: u64, now: u64)
    requires
        s.inv(),
        matches_history(s),
        finalise_error(s.storage, proposal_id, now) is None,
    ensures
        matches_history(
            status_set_state(s, proposal_id, final_status(s.storage.proposals[proposal_id])),
        ),
{
    lemma_status_change_keeps_history(s, proposal_id, final_status(s.storage.proposals[proposal_id]));
}

/// Executing keeps the state in agreement with its history.
pub proof fn law_execute_keeps_history(s: GovernanceState, admin: AccountId, proposal_id: u64)
    requires
        s.inv(),
        matches_history(s),
        execute_error(s.storage, admin, proposal_id) is None,
    ensures
        matches_history(status_set_state(s, proposal_id, ProposalStatus::Executed)),
{
    lemma_status_change_keeps_history(s, proposal_id, ProposalStatus::Executed);
}

/// Cancelling keeps the state in agreement with its history.
pub proof fn law_cancel_keeps_history(s: GovernanceState, admin: AccountId, proposal_id: u64)
    requires
        s.inv(),
        matches_history(s),
        cancel_error(s.storage, admin, proposal_id) is None,
    ensures
        matches_history(cancelled_state(s, proposal_id)),
{
    let mid = status_set_state(s, proposal_id, ProposalStatus::Cancelled);
    lemma_status_change_keeps_history(s, proposal_id, ProposalStatus::Cancelled);
    lemma_quiet_step(mid, cancelled_state(s, proposal_id), GovernanceEvent::Cancelled { id: proposal_id });
}

/// Changing a quorum keeps the state in agreement with its history.
pub proof fn law_update_quorum_keeps_history(
    s: GovernanceState,
    admin: AccountId,
    proposal_id: u64,
    new_quorum: i128,
)
    requires
        s.inv(),
        matches_history(s),
        update_quorum_error(s.storage, admin, proposal_id, new_quorum) is None,
    ensures
        matches_history(quorum_set_state(s, proposal_id, new_quorum)),
{
    let post = quorum_set_state(s, proposal_id, new_quorum);
    assert(s.storage.proposals[proposal_id].id == proposal_id);
    lemma_quiet_step(s, post, GovernanceEvent::QuorumUpdated { id: proposal_id, new_quorum });
}

/// In a state that agrees with its history, `has_voted` reports whether the
/// history holds an accepted vote of the voter on the proposal, and every
/// tally is the sum of the accepted weights; tallies therefore never exceed
/// what the accepted votes brought.
pub proof fn law_queries_follow_history(s: GovernanceState, proposal_id: u64, voter: AccountId, vote: Vote)
    requires
        matches_history(s),
    ensures
        s.storage.voted.contains((proposal_id, voter)) == voted_in(s.events, proposal_id, voter),
        s.storage.proposals.contains_key(proposal_id) ==> tally(
            s.storage.proposals[proposal_id],
            vote,
        ) == vote_weight_sum(s.events, proposal_id, vote),
        s.storage.count() == created_count(s.events),
{
}

} // verus!
