//! The governance contract: proposals, token-weighted votes, finalisation
//! and administration.
//!
//! Authorisation of the calling addresses, the ledger time and the balances
//! read from the voting token are supplied by the host as arguments.

use vstd::prelude::*;
use crate::accounts::AccountId;
use crate::governance::events;
use crate::governance::storage::{
    GovernanceStorage, StorageState, get_admin, find_last_proposal, get_min_proposal_balance,
    get_proposal_cooldown, get_proposal_count, get_version, get_voting_token, has_voted,
    is_initialized, load_proposal, mark_voted, next_id, save_proposal, set_admin,
    set_last_proposal, set_min_proposal_balance, set_proposal_cooldown, set_version,
    set_voting_token,
};
use crate::governance::types::{
    ContractError, GovernanceEvent, Proposal, ProposalStatus, ProposalView, Vote,
};
use crate::governance::history::{
    created_count, law_cancel_keeps_history, law_cast_vote_keeps_history,
    law_create_proposal_keeps_history, law_execute_keeps_history, law_finalise_keeps_history,
    law_fresh_matches_history, law_initialize_keeps_history, law_update_quorum_keeps_history,
    matches_history, voted_in,
};
use crate::governance::laws::{
    law_cancel_preserves, law_cast_vote_preserves, law_create_proposal_preserves,
    law_execute_preserves, law_finalise_preserves, law_fresh_state_inv, law_initialize_preserves,
    law_update_quorum_preserves,
};

verus! {

/// Longest accepted title, in bytes.
pub const MAX_TITLE_LEN: usize = 256;

/// Longest accepted description, in bytes.
pub const MAX_DESC_LEN: usize = 4096;

/// The mathematical value of a governance contract: its storage and the
/// events it has published, oldest first.
pub struct GovernanceState {
    pub storage: StorageState,
    pub events: Seq<GovernanceEvent>,
}

// ---------------------------------------------------------------------------
// Invariant and lifecycle
// ---------------------------------------------------------------------------

/// What holds of every stored proposal.
pub open spec fn proposal_inv(p: ProposalView) -> bool {
    &&& p.votes_yes >= 0
    &&& p.votes_no >= 0
    &&& p.votes_abstain >= 0
    &&& p.quorum > 0
    &&& p.start_time <= p.end_time
    &&& (p.status == ProposalStatus::Passed || p.status == ProposalStatus::Executed) ==> p.passes()
}

/// The statuses that a proposal may move between in one call: none, from
/// `Active` to `Passed`, `Rejected` or `Cancelled`, and from `Passed` to
/// `Executed`.
pub open spec fn status_step(before: ProposalStatus, after: ProposalStatus) -> bool {
    ||| before == after
    ||| before == ProposalStatus::Active && after == ProposalStatus::Passed
    ||| before == ProposalStatus::Active && after == ProposalStatus::Rejected
    ||| before == ProposalStatus::Active && after == ProposalStatus::Cancelled
    ||| before == ProposalStatus::Passed && after == ProposalStatus::Executed
}

impl GovernanceState {
    /// The state of a freshly deployed contract.
    pub open spec fn fresh() -> GovernanceState {
        GovernanceState { storage: StorageState::empty(), events: Seq::empty() }
    }

    /// The invariant of the governance state: the stored proposals are
    /// exactly those with ids from 1 to the proposal count, each stored under
    /// its own id; recorded votes belong to existing
    /// proposals; tallies are non-negative and quorums positive; a proposal
    /// that passed (or was executed after passing) met its quorum and had more
    /// yes than no votes; an initialised contract has a voting token.
    pub open spec fn inv(self) -> bool {
        let st = self.storage;
        &&& forall|id: u64| #[trigger]
            st.proposals.contains_key(id) ==> 1 <= id <= st.count() && st.proposals[id].id == id
                && proposal_inv(st.proposals[id])
        &&& forall|id: u64| 1 <= id <= st.count() ==> #[trigger] st.proposals.contains_key(id)
        &&& forall|id: u64, voter: AccountId| #[trigger]
            st.voted.contains((id, voter)) ==> st.proposals.contains_key(id)
        &&& st.admin is Some ==> st.voting_token is Some
    }

    /// What every call keeps between two states: no proposal disappears and
    /// each moves only along `status_step`; a new proposal starts `Active`;
    /// tallies and quorum change only while a proposal is `Active`; recorded
    /// votes are never erased; the event log only grows.
    pub open spec fn lifecycle_respected(before: GovernanceState, after: GovernanceState) -> bool {
        let b = before.storage.proposals;
        let a = after.storage.proposals;
        &&& forall|id: u64| #[trigger]
            b.contains_key(id) ==> a.contains_key(id) && status_step(b[id].status, a[id].status)
                && (b[id].status != ProposalStatus::Active ==> (a[id].votes_yes == b[id].votes_yes
                && a[id].votes_no == b[id].votes_no && a[id].votes_abstain == b[id].votes_abstain
                && a[id].quorum == b[id].quorum))
        &&& forall|id: u64| #[trigger]
            a.contains_key(id) && !b.contains_key(id) ==> a[id].status == ProposalStatus::Active
        &&& before.storage.voted.subset_of(after.storage.voted)
        &&& before.events.is_prefix_of(after.events)
    }
}

// ---------------------------------------------------------------------------
// What each call does
// ---------------------------------------------------------------------------

/// Outcome of `initialize`.
pub open spec fn spec_initialize(
    s: GovernanceState,
    admin: AccountId,
    voting_token: AccountId,
    min_proposal_balance: i128,
    proposal_cooldown: u64,
) -> (Result<(), ContractError>, GovernanceState) {
    if s.storage.admin is Some {
        (Err(ContractError::AlreadyInitialized), s)
    } else {
        (
            Ok(()),
            GovernanceState {
                storage: StorageState {
                    admin: Some(admin),
                    voting_token: Some(voting_token),
                    min_proposal_balance: if min_proposal_balance > 0 {
                        Some(min_proposal_balance)
                    } else {
                        s.storage.min_proposal_balance
                    },
                    proposal_cooldown: if proposal_cooldown > 0 {
                        Some(proposal_cooldown)
                    } else {
                        s.storage.proposal_cooldown
                    },
                    version: Some((1, 0, 0)),
                    ..s.storage
                },
                events: s.events,
            },
        )
    }
}

/// The first refusal of `create_proposal` that depends on its parameters and
/// the configuration alone, before any balance is consulted.
pub open spec fn create_proposal_param_error(
    s: StorageState,
    title_len: int,
    desc_len: int,
    quorum: i128,
    duration: u64,
) -> Option<ContractError> {
    if quorum <= 0 {
        Some(ContractError::InvalidQuorum)
    } else if duration == 0 {
        Some(ContractError::InvalidDuration)
    } else if title_len > MAX_TITLE_LEN {
        Some(ContractError::TitleTooLong)
    } else if desc_len > MAX_DESC_LEN {
        Some(ContractError::DescriptionTooLong)
    } else if s.voting_token is None {
        Some(ContractError::VotingTokenNotSet)
    } else {
        None
    }
}

/// Whether `proposer`, who has made a proposal before (at any time,
/// time 0 included), is still within the cooldown at time `now`.
pub open spec fn in_cooldown(s: StorageState, proposer: AccountId, now: u64) -> bool {
    &&& s.cooldown() > 0
    &&& s.last_proposal.contains_key(proposer)
    &&& now < s.last_proposal[proposer] + s.cooldown()
}

/// The refusal of `create_proposal`, if any; `balance` is the proposer's
/// balance of the voting token.
pub open spec fn create_proposal_error(
    s: StorageState,
    proposer: AccountId,
    title_len: int,
    desc_len: int,
    quorum: i128,
    duration: u64,
    now: u64,
    balance: i128,
) -> Option<ContractError> {
    match create_proposal_param_error(s, title_len, desc_len, quorum, duration) {
        Some(e) => Some(e),
        None => if s.min_balance() > 0 && balance < s.min_balance() {
            Some(ContractError::InsufficientBalance)
        } else if in_cooldown(s, proposer, now) {
            Some(ContractError::ProposalCooldown)
        } else {
            None
        },
    }
}

/// The inputs on which creating a proposal overflows a `u64`: the end of
/// the cooldown, the proposal counter or the end of the voting period.
pub open spec fn create_proposal_overflows(
    s: StorageState,
    proposer: AccountId,
    title_len: int,
    desc_len: int,
    quorum: i128,
    duration: u64,
    now: u64,
    balance: i128,
) -> bool {
    &&& create_proposal_param_error(s, title_len, desc_len, quorum, duration) is None
    &&& !(s.min_balance() > 0 && balance < s.min_balance())
    &&& {
        ||| s.cooldown() > 0 && s.last_proposal.contains_key(proposer) && s.last_proposal[proposer]
            + s.cooldown() > u64::MAX
        ||| !in_cooldown(s, proposer, now) && (s.count() == u64::MAX || now + duration
            > u64::MAX)
    }
}

/// The state after a proposal is created: it gets the next id, starts
/// `Active` at `now` with no votes and ends `duration` later; the
/// proposer's latest proposal time becomes `now`; `created` is published.
pub open spec fn proposal_created_state(
    s: GovernanceState,
    proposer: AccountId,
    title: Seq<u8>,
    description: Seq<u8>,
    quorum: i128,
    duration: u64,
    now: u64,
) -> GovernanceState {
    let id = (s.storage.count() + 1) as u64;
    let p = ProposalView {
        id,
        proposer,
        title,
        description,
        votes_yes: 0,
        votes_no: 0,
        votes_abstain: 0,
        quorum,
        start_time: now,
        end_time: (now + duration) as u64,
        status: ProposalStatus::Active,
    };
    GovernanceState {
        storage: StorageState {
            proposal_count: Some(id),
            proposals: s.storage.proposals.insert(id, p),
            last_proposal: s.storage.last_proposal.insert(proposer, now),
            ..s.storage
        },
        events: s.events.push(GovernanceEvent::Created { id, proposer }),
    }
}

/// The refusal of a vote that comes before the voter's weight is known.
/// Voting is open strictly before the proposal's end time; from the end time
/// on, the voting window is closed and the proposal can be finalised.
pub open spec fn vote_error(s: StorageState, voter: AccountId, proposal_id: u64, now: u64) -> Option<
    ContractError,
> {
    if !s.proposals.contains_key(proposal_id) {
        Some(ContractError::ProposalNotFound)
    } else if s.proposals[proposal_id].status != ProposalStatus::Active {
        Some(ContractError::ProposalNotActive)
    } else if now >= s.proposals[proposal_id].end_time {
        Some(ContractError::VotingPeriodEnded)
    } else if s.voted.contains((proposal_id, voter)) {
        Some(ContractError::AlreadyVoted)
    } else if s.voting_token is None {
        Some(ContractError::VotingTokenNotSet)
    } else {
        None
    }
}

/// The tally that a vote adds to.
pub open spec fn tally(p: ProposalView, vote: Vote) -> i128 {
    match vote {
        Vote::Yes => p.votes_yes,
        Vote::No => p.votes_no,
        Vote::Abstain => p.votes_abstain,
    }
}

/// The proposal with `weight` added to the tally of `vote`.
pub open spec fn with_vote(p: ProposalView, vote: Vote, weight: i128) -> ProposalView {
    match vote {
        Vote::Yes => ProposalView { votes_yes: (p.votes_yes + weight) as i128, ..p },
        Vote::No => ProposalView { votes_no: (p.votes_no + weight) as i128, ..p },
        Vote::Abstain => ProposalView { votes_abstain: (p.votes_abstain + weight) as i128, ..p },
    }
}

/// The refusal of `cast_vote`, if any, for a voter whose balance of the
/// voting token is `weight`.
pub open spec fn cast_vote_error(
    s: StorageState,
    voter: AccountId,
    proposal_id: u64,
    vote: Vote,
    now: u64,
    weight: i128,
) -> Option<ContractError> {
    match vote_error(s, voter, proposal_id, now) {
        Some(e) => Some(e),
        None => if weight <= 0 {
            Some(ContractError::NoVotingPower)
        } else if tally(s.proposals[proposal_id], vote) + weight > i128::MAX {
            Some(ContractError::VoteTallyOverflow)
        } else {
            None
        },
    }
}

/// The state after a vote is counted: the weight is added to the chosen
/// tally, the vote is recorded, `vote` is published. The proposal read
/// under `proposal_id` is written back under its own `id` field, which is
/// `proposal_id` for every proposal the contract creates.
pub open spec fn vote_counted_state(
    s: GovernanceState,
    voter: AccountId,
    proposal_id: u64,
    vote: Vote,
    weight: i128,
) -> GovernanceState {
    GovernanceState {
        storage: StorageState {
            proposals: s.storage.proposals.insert(
                s.storage.proposals[proposal_id].id,
                with_vote(s.storage.proposals[proposal_id], vote, weight),
            ),
            voted: s.storage.voted.insert((proposal_id, voter)),
            ..s.storage
        },
        events: s.events.push(
            GovernanceEvent::VoteCast { id: proposal_id, voter, vote, weight },
        ),
    }
}

/// The refusal of `finalise`, if any.
pub open spec fn finalise_error(s: StorageState, proposal_id: u64, now: u64) -> Option<ContractError> {
    if !s.proposals.contains_key(proposal_id) {
        Some(ContractError::ProposalNotFound)
    } else if s.proposals[proposal_id].status != ProposalStatus::Active {
        Some(ContractError::ProposalNotActive)
    } else if now < s.proposals[proposal_id].end_time {
        Some(ContractError::VotingStillOpen)
    } else {
        None
    }
}

/// Whether adding up the tallies of a proposal overflows an `i128`.
pub open spec fn total_overflows(p: ProposalView) -> bool {
    let partial = p.votes_yes + p.votes_no;
    ||| partial < i128::MIN
    ||| partial > i128::MAX
    ||| partial + p.votes_abstain < i128::MIN
    ||| partial + p.votes_abstain > i128::MAX
}

/// The state after a proposal's status is set, with `final` published. The
/// proposal is written back under its own `id` field, as in
/// `vote_counted_state`.
pub open spec fn status_set_state(s: GovernanceState, proposal_id: u64, status: ProposalStatus) -> GovernanceState {
    GovernanceState {
        storage: StorageState {
            proposals: s.storage.proposals.insert(
                s.storage.proposals[proposal_id].id,
                s.storage.proposals[proposal_id].with_status(status),
            ),
            ..s.storage
        },
        events: s.events.push(GovernanceEvent::Final { id: proposal_id, status }),
    }
}

/// The state after a proposal is cancelled: its status becomes `Cancelled`,
/// and `final` (with `Cancelled`) then `cancelled` are published.
pub open spec fn cancelled_state(s: GovernanceState, proposal_id: u64) -> GovernanceState {
    let t = status_set_state(s, proposal_id, ProposalStatus::Cancelled);
    GovernanceState { events: t.events.push(GovernanceEvent::Cancelled { id: proposal_id }), ..t }
}

/// The status that finalisation gives a proposal.
pub open spec fn final_status(p: ProposalView) -> ProposalStatus {
    if p.passes() {
        ProposalStatus::Passed
    } else {
        ProposalStatus::Rejected
    }
}

/// The refusal of an administrator-only call made by `caller`.
pub open spec fn admin_error(s: StorageState, caller: AccountId) -> Option<ContractError> {
    match s.admin {
        None => Some(ContractError::AdminNotSet),
        Some(a) => if a != caller {
            Some(ContractError::NotAdmin)
        } else {
            None
        },
    }
}

/// The refusal of `execute`, if any.
pub open spec fn execute_error(s: StorageState, caller: AccountId, proposal_id: u64) -> Option<ContractError> {
    match admin_error(s, caller) {
        Some(e) => Some(e),
        None => if !s.proposals.contains_key(proposal_id) {
            Some(ContractError::ProposalNotFound)
        } else if s.proposals[proposal_id].status != ProposalStatus::Passed {
            Some(ContractError::ProposalNotPassed)
        } else {
            None
        },
    }
}

/// The refusal of `cancel`, if any.
pub open spec fn cancel_error(s: StorageState, caller: AccountId, proposal_id: u64) -> Option<ContractError> {
    match admin_error(s, caller) {
        Some(e) => Some(e),
        None => if !s.proposals.contains_key(proposal_id) {
            Some(ContractError::ProposalNotFound)
        } else if s.proposals[proposal_id].status != ProposalStatus::Active {
            Some(ContractError::ProposalNotActive)
        } else {
            None
        },
    }
}

/// The refusal of `update_quorum`, if any.
pub open spec fn update_quorum_error(
    s: StorageState,
    caller: AccountId,
    proposal_id: u64,
    new_quorum: i128,
) -> Option<ContractError> {
    match admin_error(s, caller) {
        Some(e) => Some(e),
        None => if new_quorum <= 0 {
            Some(ContractError::InvalidQuorum)
        } else if !s.proposals.contains_key(proposal_id) {
            Some(ContractError::ProposalNotFound)
        } else if s.proposals[proposal_id].status != ProposalStatus::Active {
            Some(ContractError::ProposalNotActive)
        } else {
            None
        },
    }
}

/// The state after a proposal's quorum is changed, with `qupdate` published.
/// The proposal is written back under its own `id` field, as in
/// `vote_counted_state`.
pub open spec fn quorum_set_state(s: GovernanceState, proposal_id: u64, new_quorum: i128) -> GovernanceState {
    GovernanceState {
        storage: StorageState {
            proposals: s.storage.proposals.insert(
                s.storage.proposals[proposal_id].id,
                s.storage.proposals[proposal_id].with_quorum(new_quorum),
            ),
            ..s.storage
        },
        events: s.events.push(GovernanceEvent::QuorumUpdated { id: proposal_id, new_quorum }),
    }
}

// ---------------------------------------------------------------------------
// The contract
// ---------------------------------------------------------------------------

/// One deployed governance contract.
pub struct GovernanceContract {
    storage: GovernanceStorage,
    events: Vec<GovernanceEvent>,
}

impl View for GovernanceContract {
    type V = GovernanceState;

    closed spec fn view(&self) -> GovernanceState {
        GovernanceState { storage: self.storage@, events: self.events@ }
    }
}

impl GovernanceContract {
    /// A freshly deployed contract: empty storage, no events.
    pub fn new() -> (c: GovernanceContract)
        ensures
            c@ == GovernanceState::fresh(),
            c@.inv(),
            matches_history(c@),
    {
        proof {
            law_fresh_state_inv();
            law_fresh_matches_history();
        }
        GovernanceContract { storage: GovernanceStorage::new(), events: Vec::new() }
    }

    /// A contract whose storage holds what `storage` holds and whose event
    /// log is empty.
    pub fn from_storage(storage: GovernanceStorage) -> (c: GovernanceContract)
        ensures
            c@ == (GovernanceState { storage: storage@, events: Seq::empty() }),
    {
        GovernanceContract { storage, events: Vec::new() }
    }

    /// The contract's storage.
    pub fn storage(&self) -> (s: &GovernanceStorage)
        ensures
            s@ == self@.storage,
    {
        &self.storage
    }

    /// The events published so far, oldest first.
    pub fn events(&self) -> (e: &Vec<GovernanceEvent>)
        ensures
            e@ == self@.events,
    {
        &self.events
    }

    /// Initialises the contract with an administrator and a voting token.
    /// A positive `min_proposal_balance` is the balance of the voting token
    /// that a proposer must hold; a positive `proposal_cooldown` is the time a
    /// proposer must wait between two proposals.
    ///
    /// Refused with `AlreadyInitialized` once an administrator is stored.
    pub fn initialize(
        &mut self,
        admin: AccountId,
        voting_token: AccountId,
        min_proposal_balance: i128,
        proposal_cooldown: u64,
    ) -> (r: Result<(), ContractError>)
        ensures
            (r, final(self)@) == spec_initialize(
                old(self)@,
                admin,
                voting_token,
                min_proposal_balance,
                proposal_cooldown,
            ),
            old(self)@.inv() ==> final(self)@.inv() && GovernanceState::lifecycle_respected(
                old(self)@,
                final(self)@,
            ),
            old(self)@.inv() && matches_history(old(self)@) ==> matches_history(final(self)@),
    {
        let ghost s0 = self@;
        if is_initialized(&self.storage) {
            return Err(ContractError::AlreadyInitialized);
        }
        set_admin(&mut self.storage, admin);
        set_voting_token(&mut self.storage, voting_token);
        if min_proposal_balance > 0 {
            set_min_proposal_balance(&mut self.storage, min_proposal_balance);
        }
        if proposal_cooldown > 0 {
            set_proposal_cooldown(&mut self.storage, proposal_cooldown);
        }
        set_version(&mut self.storage, (1, 0, 0));
        proof {
            if s0.inv() {
                law_initialize_preserves(s0, admin, voting_token, min_proposal_balance, proposal_cooldown);
                if matches_history(s0) {
                    law_initialize_keeps_history(s0, admin, voting_token, min_proposal_balance, proposal_cooldown);
                }
            }
        }
        Ok(())
    }

    /// Checks the parameters of a proposal before any balance is read.
    /// Returns the refusal that `create_proposal` would give on these
    /// parameters, or whether it needs the proposer's balance of the voting
    /// token (it does when a minimum balance is set).
    pub fn proposal_balance_needed(
        &self,
        title: &Vec<u8>,
        description: &Vec<u8>,
        quorum: i128,
        duration: u64,
    ) -> (r: Result<bool, ContractError>)
        ensures
            r == (match create_proposal_param_error(
                self@.storage,
                title@.len() as int,
                description@.len() as int,
                quorum,
                duration,
            ) {
                Some(e) => Err(e),
                None => Ok(self@.storage.min_balance() > 0),
            }),
    {
        if quorum <= 0 {
            return Err(ContractError::InvalidQuorum);
        }
        if duration == 0 {
            return Err(ContractError::InvalidDuration);
        }
        if title.len() > MAX_TITLE_LEN {
            return Err(ContractError::TitleTooLong);
        }
        if description.len() > MAX_DESC_LEN {
            return Err(ContractError::DescriptionTooLong);
        }
        match get_voting_token(&self.storage) {
            Err(e) => Err(e),
            Ok(_) => Ok(get_min_proposal_balance(&self.storage) > 0),
        }
    }

    /// Creates a proposal by `proposer` at time `now` that is open for votes
    /// for `duration`; `proposer_balance` is the proposer's balance of the
    /// voting token, consulted only when a minimum balance is set.
    /// Returns the new proposal's id.
    pub fn create_proposal(
        &mut self,
        proposer: AccountId,
        title: Vec<u8>,
        description: Vec<u8>,
        quorum: i128,
        duration: u64,
        now: u64,
        proposer_balance: i128,
    ) -> (r: Result<u64, ContractError>)
        requires
            !create_proposal_overflows(
                old(self)@.storage,
                proposer,
                title@.len() as int,
                description@.len() as int,
                quorum,
                duration,
                now,
                proposer_balance,
            ),
        ensures
            match create_proposal_error(
                old(self)@.storage,
                proposer,
                title@.len() as int,
                description@.len() as int,
                quorum,
                duration,
                now,
                proposer_balance,
            ) {
                Some(e) => r == Err::<u64, ContractError>(e) && final(self)@ == old(self)@,
                None => r == Ok::<u64, ContractError>((old(self)@.storage.count() + 1) as u64)
                    && final(self)@ == proposal_created_state(
                    old(self)@,
                    proposer,
                    title@,
                    description@,
                    quorum,
                    duration,
                    now,
                ),
            },
            old(self)@.inv() ==> final(self)@.inv() && GovernanceState::lifecycle_respected(
                old(self)@,
                final(self)@,
            ),
            old(self)@.inv() && matches_history(old(self)@) ==> matches_history(final(self)@),
    {
        let ghost s0 = self@;
        if quorum <= 0 {
            return Err(ContractError::InvalidQuorum);
        }
        if duration == 0 {
            return Err(ContractError::InvalidDuration);
        }
        if title.len() > MAX_TITLE_LEN {
            return Err(ContractError::TitleTooLong);
        }
        if description.len() > MAX_DESC_LEN {
            return Err(ContractError::DescriptionTooLong);
        }
        if let Err(e) = get_voting_token(&self.storage) {
            return Err(e);
        }
        let min_balance = get_min_proposal_balance(&self.storage);
        if min_balance > 0 && proposer_balance < min_balance {
            return Err(ContractError::InsufficientBalance);
        }
        let cooldown = get_proposal_cooldown(&self.storage);
        if cooldown > 0 {
            if let Some(last) = find_last_proposal(&self.storage, proposer) {
                if now < last + cooldown {
                    return Err(ContractError::ProposalCooldown);
                }
            }
        }
        let id = next_id(&mut self.storage);
        let proposal = Proposal {
            id,
            proposer,
            title,
            description,
            votes_yes: 0,
            votes_no: 0,
            votes_abstain: 0,
            quorum,
            start_time: now,
            end_time: now + duration,
            status: ProposalStatus::Active,
        };
        save_proposal(&mut self.storage, proposal);
        set_last_proposal(&mut self.storage, proposer, now);
        events::proposal_created(&mut self.events, id, proposer);
        proof {
            let post = proposal_created_state(s0, proposer, title@, description@, quorum, duration, now);
            assert(self@.storage.proposals =~= post.storage.proposals);
            assert(self@ == post);
        }
        proof {
            if s0.inv() {
                law_create_proposal_preserves(s0, proposer, title@, description@, quorum, duration, now, proposer_balance);
                if matches_history(s0) {
                    law_create_proposal_keeps_history(s0, proposer, title@, description@, quorum, duration, now, proposer_balance);
                }
            }
        }
        Ok(id)
    }

    /// Whether `create_proposal` would overflow a `u64` on these inputs: the
    /// inputs that its `requires` leaves out, on which the contract fails.
    pub fn create_proposal_overflows(
        &self,
        proposer: AccountId,
        title: &Vec<u8>,
        description: &Vec<u8>,
        quorum: i128,
        duration: u64,
        now: u64,
        proposer_balance: i128,
    ) -> (r: bool)
        ensures
            r == create_proposal_overflows(
                self@.storage,
                proposer,
                title@.len() as int,
                description@.len() as int,
                quorum,
                duration,
                now,
                proposer_balance,
            ),
    {
        if quorum <= 0 || duration == 0 || title.len() > MAX_TITLE_LEN || description.len()
            > MAX_DESC_LEN {
            return false;
        }
        if get_voting_token(&self.storage).is_err() {
            return false;
        }
        let min_balance = get_min_proposal_balance(&self.storage);
        if min_balance > 0 && proposer_balance < min_balance {
            return false;
        }
        let cooldown = get_proposal_cooldown(&self.storage);
        if cooldown > 0 {
            if let Some(last) = find_last_proposal(&self.storage, proposer) {
                match last.checked_add(cooldown) {
                    None => return true,
                    Some(end) => if now < end {
                        return false;
                    },
                }
            }
        }
        get_proposal_count(&self.storage) == u64::MAX || now.checked_add(duration).is_none()
    }

    /// Checks a vote by `voter` at time `now` before the voter's weight is
    /// read: returns the refusal that `cast_vote` would give whatever the
    /// weight, if there is one.
    pub fn vote_precheck(&self, voter: AccountId, proposal_id: u64, now: u64) -> (r: Result<(), ContractError>)
        ensures
            r == (match vote_error(self@.storage, voter, proposal_id, now) {
                Some(e) => Err(e),
                None => Ok(()),
            }),
    {
        let proposal = match load_proposal(&self.storage, proposal_id) {
            Ok(p) => p,
            Err(e) => return Err(e),
        };
        if proposal.status != ProposalStatus::Active {
            return Err(ContractError::ProposalNotActive);
        }
        if now >= proposal.end_time {
            return Err(ContractError::VotingPeriodEnded);
        }
        if has_voted(&self.storage, proposal_id, voter) {
            return Err(ContractError::AlreadyVoted);
        }
        match get_voting_token(&self.storage) {
            Err(e) => Err(e),
            Ok(_) => Ok(()),
        }
    }

    /// Casts `voter`'s vote at time `now` with `weight`, the voter's balance
    /// of the voting token: the weight is added to the chosen tally and the
    /// voter may not vote on this proposal again.
    pub fn cast_vote(
        &mut self,
        voter: AccountId,
        proposal_id: u64,
        vote: Vote,
        now: u64,
        weight: i128,
    ) -> (r: Result<(), ContractError>)
        ensures
            match cast_vote_error(old(self)@.storage, voter, proposal_id, vote, now, weight) {
                Some(e) => r == Err::<(), ContractError>(e) && final(self)@ == old(self)@,
                None => r == Ok::<(), ContractError>(()) && final(self)@ == vote_counted_state(
                    old(self)@,
                    voter,
                    proposal_id,
                    vote,
                    weight,
                ),
            },
            old(self)@.inv() ==> final(self)@.inv() && GovernanceState::lifecycle_respected(
                old(self)@,
                final(self)@,
            ),
            old(self)@.inv() && matches_history(old(self)@) ==> matches_history(final(self)@),
    {
        let ghost s0 = self@;
        let mut proposal = match load_proposal(&self.storage, proposal_id) {
            Ok(p) => p,
            Err(e) => return Err(e),
        };
        if proposal.status != ProposalStatus::Active {
            return Err(ContractError::ProposalNotActive);
        }
        if now >= proposal.end_time {
            return Err(ContractError::VotingPeriodEnded);
        }
        if has_voted(&self.storage, proposal_id, voter) {
            return Err(ContractError::AlreadyVoted);
        }
        if let Err(e) = get_voting_token(&self.storage) {
            return Err(e);
        }
        if weight <= 0 {
            return Err(ContractError::NoVotingPower);
        }
        match vote {
            Vote::Yes => {
                match proposal.votes_yes.checked_add(weight) {
                    Some(v) => proposal.votes_yes = v,
                    None => return Err(ContractError::VoteTallyOverflow),
                }
            },
            Vote::No => {
                match proposal.votes_no.checked_add(weight) {
                    Some(v) => proposal.votes_no = v,
                    None => return Err(ContractError::VoteTallyOverflow),
                }
            },
            Vote::Abstain => {
                match proposal.votes_abstain.checked_add(weight) {
                    Some(v) => proposal.votes_abstain = v,
                    None => return Err(ContractError::VoteTallyOverflow),
                }
            },
        }
        mark_voted(&mut self.storage, proposal_id, voter);
        save_proposal(&mut self.storage, proposal);
        events::vote_cast(&mut self.events, proposal_id, voter, vote, weight);
        proof {
            let post = vote_counted_state(s0, voter, proposal_id, vote, weight);
            assert(self@.storage.proposals =~= post.storage.proposals);
            assert(self@ == post);
        }
        proof {
            if s0.inv() {
                law_cast_vote_preserves(s0, voter, proposal_id, vote, now, weight);
                if matches_history(s0) {
                    law_cast_vote_keeps_history(s0, voter, proposal_id, vote, now, weight);
                }
            }
        }
        Ok(())
    }

    /// Finalises a proposal whose voting period has ended (its end time is
    /// reached) at time `now`: it
    /// passes when its total votes reach the quorum and its yes votes exceed
    /// its no votes, and is rejected otherwise.
    pub fn finalise(&mut self, proposal_id: u64, now: u64) -> (r: Result<(), ContractError>)
        requires
            finalise_error(old(self)@.storage, proposal_id, now) is None ==> !total_overflows(
                old(self)@.storage.proposals[proposal_id],
            ),
        ensures
            match finalise_error(old(self)@.storage, proposal_id, now) {
                Some(e) => r == Err::<(), ContractError>(e) && final(self)@ == old(self)@,
                None => r == Ok::<(), ContractError>(()) && final(self)@ == status_set_state(
                    old(self)@,
                    proposal_id,
                    final_status(old(self)@.storage.proposals[proposal_id]),
                ),
            },
            old(self)@.inv() ==> final(self)@.inv() && GovernanceState::lifecycle_respected(
                old(self)@,
                final(self)@,
            ),
            old(self)@.inv() && matches_history(old(self)@) ==> matches_history(final(self)@),
    {
        let ghost s0 = self@;
        let mut proposal = match load_proposal(&self.storage, proposal_id) {
            Ok(p) => p,
            Err(e) => return Err(e),
        };
        if proposal.status != ProposalStatus::Active {
            return Err(ContractError::ProposalNotActive);
        }
        if now < proposal.end_time {
            return Err(ContractError::VotingStillOpen);
        }
        let total = proposal.votes_yes + proposal.votes_no + proposal.votes_abstain;
        proposal.status = if total >= proposal.quorum && proposal.votes_yes > proposal.votes_no {
            ProposalStatus::Passed
        } else {
            ProposalStatus::Rejected
        };
        let status = proposal.status;
        save_proposal(&mut self.storage, proposal);
        events::proposal_finalised(&mut self.events, proposal_id, status);
        proof {
            let post = status_set_state(s0, proposal_id, final_status(s0.storage.proposals[proposal_id]));
            assert(self@.storage.proposals =~= post.storage.proposals);
            assert(self@ == post);
        }
        proof {
            if s0.inv() {
                law_finalise_preserves(s0, proposal_id, now);
                if matches_history(s0) {
                    law_finalise_keeps_history(s0, proposal_id, now);
                }
            }
        }
        Ok(())
    }

    /// Whether `finalise` would overflow an `i128` while adding up the
    /// tallies: the inputs that its `requires` leaves out, on which the
    /// contract fails.
    pub fn finalise_overflows(&self, proposal_id: u64, now: u64) -> (r: bool)
        ensures
            r == (finalise_error(self@.storage, proposal_id, now) is None && total_overflows(
                self@.storage.proposals[proposal_id],
            )),
    {
        match load_proposal(&self.storage, proposal_id) {
            Err(_) => false,
            Ok(p) => {
                if p.status != ProposalStatus::Active || now < p.end_time {
                    false
                } else {
                    match p.votes_yes.checked_add(p.votes_no) {
                        None => true,
                        Some(partial) => partial.checked_add(p.votes_abstain).is_none(),
                    }
                }
            },
        }
    }

    /// Marks a passed proposal as executed. Only the administrator may.
    pub fn execute(&mut self, admin: AccountId, proposal_id: u64) -> (r: Result<(), ContractError>)
        ensures
            match execute_error(old(self)@.storage, admin, proposal_id) {
                Some(e) => r == Err::<(), ContractError>(e) && final(self)@ == old(self)@,
                None => r == Ok::<(), ContractError>(()) && final(self)@ == status_set_state(
                    old(self)@,
                    proposal_id,
                    ProposalStatus::Executed,
                ),
            },
            old(self)@.inv() ==> final(self)@.inv() && GovernanceState::lifecycle_respected(
                old(self)@,
                final(self)@,
            ),
            old(self)@.inv() && matches_history(old(self)@) ==> matches_history(final(self)@),
    {
        let ghost s0 = self@;
        match get_admin(&self.storage) {
            Err(e) => return Err(e),
            Ok(a) => if a != admin {
                return Err(ContractError::NotAdmin);
            },
        }
        let mut proposal = match load_proposal(&self.storage, proposal_id) {
            Ok(p) => p,
            Err(e) => return Err(e),
        };
        if proposal.status != ProposalStatus::Passed {
            return Err(ContractError::ProposalNotPassed);
        }
        proposal.status = ProposalStatus::Executed;
        save_proposal(&mut self.storage, proposal);
        events::proposal_finalised(&mut self.events, proposal_id, ProposalStatus::Executed);
        proof {
            let post = status_set_state(s0, proposal_id, ProposalStatus::Executed);
            assert(self@.storage.proposals =~= post.storage.proposals);
            assert(self@ == post);
        }
        proof {
            if s0.inv() {
                law_execute_preserves(s0, admin, proposal_id);
                if matches_history(s0) {
                    law_execute_keeps_history(s0, admin, proposal_id);
                }
            }
        }
        Ok(())
    }

    /// Cancels an active proposal and publishes both `final` (with
    /// `Cancelled`) and `cancelled`. Only the administrator may.
    pub fn cancel(&mut self, admin: AccountId, proposal_id: u64) -> (r: Result<(), ContractError>)
        ensures
            match cancel_error(old(self)@.storage, admin, proposal_id) {
                Some(e) => r == Err::<(), ContractError>(e) && final(self)@ == old(self)@,
                None => r == Ok::<(), ContractError>(()) && final(self)@ == cancelled_state(
                    old(self)@,
                    proposal_id,
                ),
            },
            old(self)@.inv() ==> final(self)@.inv() && GovernanceState::lifecycle_respected(
                old(self)@,
                final(self)@,
            ),
            old(self)@.inv() && matches_history(old(self)@) ==> matches_history(final(self)@),
    {
        let ghost s0 = self@;
        match get_admin(&self.storage) {
            Err(e) => return Err(e),
            Ok(a) => if a != admin {
                return Err(ContractError::NotAdmin);
            },
        }
        let mut proposal = match load_proposal(&self.storage, proposal_id) {
            Ok(p) => p,
            Err(e) => return Err(e),
        };
        if proposal.status != ProposalStatus::Active {
            return Err(ContractError::ProposalNotActive);
        }
        proposal.status = ProposalStatus::Cancelled;
        save_proposal(&mut self.storage, proposal);
        events::proposal_finalised(&mut self.events, proposal_id, ProposalStatus::Cancelled);
        events::proposal_cancelled(&mut self.events, proposal_id);
        proof {
            let post = cancelled_state(s0, proposal_id);
            assert(self@.storage.proposals =~= post.storage.proposals);
            assert(self@ == post);
        }
        proof {
            if s0.inv() {
                law_cancel_preserves(s0, admin, proposal_id);
                if matches_history(s0) {
                    law_cancel_keeps_history(s0, admin, proposal_id);
                }
            }
        }
        Ok(())
    }

    /// Changes the quorum of an active proposal. Only the administrator may.
    pub fn update_quorum(&mut self, admin: AccountId, proposal_id: u64, new_quorum: i128) -> (r:
        Result<(), ContractError>)
        ensures
            match update_quorum_error(old(self)@.storage, admin, proposal_id, new_quorum) {
                Some(e) => r == Err::<(), ContractError>(e) && final(self)@ == old(self)@,
                None => r == Ok::<(), ContractError>(()) && final(self)@ == quorum_set_state(
                    old(self)@,
                    proposal_id,
                    new_quorum,
                ),
            },
            old(self)@.inv() ==> final(self)@.inv() && GovernanceState::lifecycle_respected(
                old(self)@,
                final(self)@,
            ),
            old(self)@.inv() && matches_history(old(self)@) ==> matches_history(final(self)@),
    {
        let ghost s0 = self@;
        match get_admin(&self.storage) {
            Err(e) => return Err(e),
            Ok(a) => if a != admin {
                return Err(ContractError::NotAdmin);
            },
        }
        if new_quorum <= 0 {
            return Err(ContractError::InvalidQuorum);
        }
        let mut proposal = match load_proposal(&self.storage, proposal_id) {
            Ok(p) => p,
            Err(e) => return Err(e),
        };
        if proposal.status != ProposalStatus::Active {
            return Err(ContractError::ProposalNotActive);
        }
        proposal.quorum = new_quorum;
        save_proposal(&mut self.storage, proposal);
        events::quorum_updated(&mut self.events, proposal_id, new_quorum);
        proof {
            let post = quorum_set_state(s0, proposal_id, new_quorum);
            assert(self@.storage.proposals =~= post.storage.proposals);
            assert(self@ == post);
        }
        proof {
            if s0.inv() {
                law_update_quorum_preserves(s0, admin, proposal_id, new_quorum);
                if matches_history(s0) {
                    law_update_quorum_keeps_history(s0, admin, proposal_id, new_quorum);
                }
            }
        }
        Ok(())
    }

    /// The full state of a proposal.
    pub fn get_proposal(&self, proposal_id: u64) -> (r: Result<Proposal, ContractError>)
        ensures
            match r {
                Ok(p) => self@.storage.proposals.contains_key(proposal_id) && p@
                    == self@.storage.proposals[proposal_id],
                Err(e) => !self@.storage.proposals.contains_key(proposal_id) && e
                    == ContractError::ProposalNotFound,
            },
            self@.inv() ==> (r is Ok <==> 1 <= proposal_id <= self@.storage.count()),
    {
        load_proposal(&self.storage, proposal_id)
    }

    /// The number of proposals ever created.
    pub fn proposal_count(&self) -> (n: u64)
        ensures
            n == self@.storage.count(),
            matches_history(self@) ==> n == created_count(self@.events),
    {
        get_proposal_count(&self.storage)
    }

    /// Whether `voter` has voted on the proposal.
    pub fn has_voted(&self, proposal_id: u64, voter: AccountId) -> (r: Result<bool, ContractError>)
        ensures
            r == (if self@.storage.proposals.contains_key(proposal_id) {
                Ok(self@.storage.voted.contains((proposal_id, voter)))
            } else {
                Err(ContractError::ProposalNotFound)
            }),
            matches_history(self@) && self@.storage.proposals.contains_key(proposal_id) ==> r
                == Ok::<bool, ContractError>(voted_in(self@.events, proposal_id, voter)),
    {
        match load_proposal(&self.storage, proposal_id) {
            Err(e) => Err(e),
            Ok(_) => Ok(has_voted(&self.storage, proposal_id, voter)),
        }
    }

    /// The contract version as `(major, minor, patch)`; `(0, 0, 0)` before
    /// initialisation.
    pub fn get_version(&self) -> (v: (u32, u32, u32))
        ensures
            v == self@.storage.version_or_zero(),
    {
        get_version(&self.storage)
    }
}

} // verus!
