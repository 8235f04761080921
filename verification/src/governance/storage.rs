//! What the governance contract keeps in storage, and the accessors that
//! read and write it.

use std::collections::HashMap;
use std::collections::HashSet;
use vstd::prelude::*;
use crate::accounts::{AccountId, pair_key, spec_pair_key, lemma_pair_key_injective};
use crate::governance::types::{ContractError, Proposal, ProposalView};

verus! {

broadcast use vstd::std_specs::hash::group_hash_axioms;

/// The mathematical value of the governance storage. An `Option` field is
/// `None` while its entry has never been written.
pub struct StorageState {
    pub admin: Option<AccountId>,
    pub voting_token: Option<AccountId>,
    pub min_proposal_balance: Option<i128>,
    pub proposal_cooldown: Option<u64>,
    pub version: Option<(u32, u32, u32)>,
    pub proposal_count: Option<u64>,
    /// Proposals by id.
    pub proposals: Map<u64, ProposalView>,
    /// The `(proposal id, voter)` pairs for which a vote was recorded.
    pub voted: Set<(u64, AccountId)>,
    /// Time of each proposer's latest proposal.
    pub last_proposal: Map<AccountId, u64>,
}

impl StorageState {
    /// Storage of a freshly deployed contract: nothing written yet.
    pub open spec fn empty() -> StorageState {
        StorageState {
            admin: None,
            voting_token: None,
            min_proposal_balance: None,
            proposal_cooldown: None,
            version: None,
            proposal_count: None,
            proposals: Map::empty(),
            voted: Set::empty(),
            last_proposal: Map::empty(),
        }
    }

    /// Number of proposals created so far (0 when never written).
    pub open spec fn count(self) -> u64 {
        match self.proposal_count {
            Some(n) => n,
            None => 0,
        }
    }

    /// Minimum proposer balance (0, no minimum, when never written).
    pub open spec fn min_balance(self) -> i128 {
        match self.min_proposal_balance {
            Some(v) => v,
            None => 0,
        }
    }

    /// Cooldown between two proposals of one proposer (0 when never written).
    pub open spec fn cooldown(self) -> u64 {
        match self.proposal_cooldown {
            Some(v) => v,
            None => 0,
        }
    }

    /// Time of the proposer's latest proposal (0 when it has made none).
    pub open spec fn last_proposal_of(self, proposer: AccountId) -> u64 {
        if self.last_proposal.contains_key(proposer) {
            self.last_proposal[proposer]
        } else {
            0
        }
    }

    /// The stored version, `(0, 0, 0)` when never written.
    pub open spec fn version_or_zero(self) -> (u32, u32, u32) {
        match self.version {
            Some(v) => v,
            None => (0, 0, 0),
        }
    }
}

/// A write that one of the storage setters performs.
pub enum StorageWrite {
    SaveProposal(ProposalView),
    NextId,
    SetProposalCount(u64),
    SetAdmin(AccountId),
    SetVotingToken(AccountId),
    MarkVoted(u64, AccountId),
    SetMinProposalBalance(i128),
    SetProposalCooldown(u64),
    SetLastProposal(AccountId, u64),
    SetVersion((u32, u32, u32)),
}

impl StorageState {
    /// The storage after one write.
    pub open spec fn apply(self, w: StorageWrite) -> StorageState {
        match w {
            StorageWrite::SaveProposal(p) => StorageState {
                proposals: self.proposals.insert(p.id, p),
                ..self
            },
            StorageWrite::NextId => StorageState {
                proposal_count: Some((self.count() + 1) as u64),
                ..self
            },
            StorageWrite::SetProposalCount(n) => StorageState { proposal_count: Some(n), ..self },
            StorageWrite::SetAdmin(a) => StorageState { admin: Some(a), ..self },
            StorageWrite::SetVotingToken(t) => StorageState { voting_token: Some(t), ..self },
            StorageWrite::MarkVoted(id, voter) => StorageState {
                voted: self.voted.insert((id, voter)),
                ..self
            },
            StorageWrite::SetMinProposalBalance(v) => StorageState {
                min_proposal_balance: Some(v),
                ..self
            },
            StorageWrite::SetProposalCooldown(v) => StorageState {
                proposal_cooldown: Some(v),
                ..self
            },
            StorageWrite::SetLastProposal(proposer, ts) => StorageState {
                last_proposal: self.last_proposal.insert(proposer, ts),
                ..self
            },
            StorageWrite::SetVersion(v) => StorageState { version: Some(v), ..self },
        }
    }

    /// The storage after a sequence of writes, oldest first.
    pub open spec fn apply_all(self, writes: Seq<StorageWrite>) -> StorageState
        decreases writes.len(),
    {
        if writes.len() == 0 {
            self
        } else {
            self.apply_all(writes.drop_last()).apply(writes.last())
        }
    }
}

/// The storage of one governance contract.
pub struct GovernanceStorage {
    admin: Option<AccountId>,
    voting_token: Option<AccountId>,
    min_proposal_balance: Option<i128>,
    proposal_cooldown: Option<u64>,
    version: Option<(u32, u32, u32)>,
    proposal_count: Option<u64>,
    proposals: HashMap<u64, Proposal>,
    /// Keys `pair_key(proposal id, voter)`.
    voted: HashSet<u128>,
    last_proposal: HashMap<AccountId, u64>,
}

impl View for GovernanceStorage {
    type V = StorageState;

    closed spec fn view(&self) -> StorageState {
        StorageState {
            admin: self.admin,
            voting_token: self.voting_token,
            min_proposal_balance: self.min_proposal_balance,
            proposal_cooldown: self.proposal_cooldown,
            version: self.version,
            proposal_count: self.proposal_count,
            proposals: self.proposals@.map_values(|p: Proposal| p@),
            voted: Set::new(
                |pair: (u64, AccountId)| self.voted@.contains(spec_pair_key(pair.0, pair.1)),
            ),
            last_proposal: self.last_proposal@,
        }
    }
}

impl GovernanceStorage {
    /// Storage of a freshly deployed contract.
    pub fn new() -> (s: GovernanceStorage)
        ensures
            s@ == StorageState::empty(),
    {
        let s = GovernanceStorage {
            admin: None,
            voting_token: None,
            min_proposal_balance: None,
            proposal_cooldown: None,
            version: None,
            proposal_count: None,
            proposals: HashMap::new(),
            voted: HashSet::new(),
            last_proposal: HashMap::new(),
        };
        assert(s@.proposals =~= Map::empty());
        assert(s@.voted =~= Set::empty());
        s
    }
}

/// Stores `p` under its id, replacing any proposal stored there.
pub fn save_proposal(s: &mut GovernanceStorage, p: Proposal)
    ensures
        final(s)@ == (StorageState { proposals: old(s)@.proposals.insert(p.id, p@), ..old(s)@ }),
        final(s)@ == old(s)@.apply(StorageWrite::SaveProposal(p@)),
{
    let ghost pv = p@;
    s.proposals.insert(p.id, p);
    assert(s@.proposals =~= old(s)@.proposals.insert(pv.id, pv));
    assert(s@.voted =~= old(s)@.voted);
}

/// The proposal stored under `id`.
pub fn load_proposal(s: &GovernanceStorage, id: u64) -> (r: Result<Proposal, ContractError>)
    ensures
        match r {
            Ok(p) => s@.proposals.contains_key(id) && p@ == s@.proposals[id],
            Err(e) => !s@.proposals.contains_key(id) && e == ContractError::ProposalNotFound,
        },
{
    match s.proposals.get(&id) {
        Some(p) => Ok(p.duplicate()),
        None => Err(ContractError::ProposalNotFound),
    }
}

/// Increments the proposal counter and returns its new value, the id of the
/// next proposal.
pub fn next_id(s: &mut GovernanceStorage) -> (id: u64)
    requires
        old(s)@.count() < u64::MAX,
    ensures
        id == old(s)@.count() + 1,
        final(s)@ == (StorageState { proposal_count: Some(id), ..old(s)@ }),
        final(s)@ == old(s)@.apply(StorageWrite::NextId),
{
    let n: u64 = match s.proposal_count {
        Some(c) => c,
        None => 0,
    } + 1;
    s.proposal_count = Some(n);
    assert(s@.voted =~= old(s)@.voted);
    n
}

/// Stores the proposal counter.
pub fn set_proposal_count(s: &mut GovernanceStorage, count: u64)
    ensures
        final(s)@ == (StorageState { proposal_count: Some(count), ..old(s)@ }),
        final(s)@ == old(s)@.apply(StorageWrite::SetProposalCount(count)),
{
    s.proposal_count = Some(count);
    assert(s@.voted =~= old(s)@.voted);
}

/// Stores the administrator.
pub fn set_admin(s: &mut GovernanceStorage, admin: AccountId)
    ensures
        final(s)@ == (StorageState { admin: Some(admin), ..old(s)@ }),
        final(s)@ == old(s)@.apply(StorageWrite::SetAdmin(admin)),
{
    s.admin = Some(admin);
    assert(s@.voted =~= old(s)@.voted);
}

/// Whether the contract has been initialised (an administrator is stored).
pub fn is_initialized(s: &GovernanceStorage) -> (b: bool)
    ensures
        b == s@.admin.is_some(),
{
    s.admin.is_some()
}

/// The stored administrator.
pub fn get_admin(s: &GovernanceStorage) -> (r: Result<AccountId, ContractError>)
    ensures
        r == (match s@.admin {
            Some(a) => Ok(a),
            None => Err(ContractError::AdminNotSet),
        }),
{
    match s.admin {
        Some(a) => Ok(a),
        None => Err(ContractError::AdminNotSet),
    }
}

/// Stores the token whose balances weigh the votes.
pub fn set_voting_token(s: &mut GovernanceStorage, token: AccountId)
    ensures
        final(s)@ == (StorageState { voting_token: Some(token), ..old(s)@ }),
        final(s)@ == old(s)@.apply(StorageWrite::SetVotingToken(token)),
{
    s.voting_token = Some(token);
    assert(s@.voted =~= old(s)@.voted);
}

/// The stored voting token.
pub fn get_voting_token(s: &GovernanceStorage) -> (r: Result<AccountId, ContractError>)
    ensures
        r == (match s@.voting_token {
            Some(t) => Ok(t),
            None => Err(ContractError::VotingTokenNotSet),
        }),
{
    match s.voting_token {
        Some(t) => Ok(t),
        None => Err(ContractError::VotingTokenNotSet),
    }
}

/// Records that `voter` has voted on proposal `proposal_id`.
pub fn mark_voted(s: &mut GovernanceStorage, proposal_id: u64, voter: AccountId)
    ensures
        final(s)@ == (StorageState { voted: old(s)@.voted.insert((proposal_id, voter)), ..old(s)@ }),
        final(s)@ == old(s)@.apply(StorageWrite::MarkVoted(proposal_id, voter)),
{
    let key = pair_key(proposal_id, voter);
    s.voted.insert(key);
    assert forall|pair: (u64, AccountId)|
        s@.voted.contains(pair) == old(s)@.voted.insert((proposal_id, voter)).contains(pair) by {
        lemma_pair_key_injective(pair.0, pair.1, proposal_id, voter);
    }
    assert(s@.voted =~= old(s)@.voted.insert((proposal_id, voter)));
}

/// Whether a vote of `voter` on proposal `proposal_id` is recorded.
pub fn has_voted(s: &GovernanceStorage, proposal_id: u64, voter: AccountId) -> (b: bool)
    ensures
        b == s@.voted.contains((proposal_id, voter)),
{
    let key = pair_key(proposal_id, voter);
    s.voted.contains(&key)
}

/// Stores the minimum balance a proposer must hold.
pub fn set_min_proposal_balance(s: &mut GovernanceStorage, v: i128)
    ensures
        final(s)@ == (StorageState { min_proposal_balance: Some(v), ..old(s)@ }),
        final(s)@ == old(s)@.apply(StorageWrite::SetMinProposalBalance(v)),
{
    s.min_proposal_balance = Some(v);
    assert(s@.voted =~= old(s)@.voted);
}

/// The minimum balance a proposer must hold, 0 when none was stored.
pub fn get_min_proposal_balance(s: &GovernanceStorage) -> (v: i128)
    ensures
        v == s@.min_balance(),
{
    match s.min_proposal_balance {
        Some(v) => v,
        None => 0,
    }
}

/// Stores the cooldown between two proposals of one proposer.
pub fn set_proposal_cooldown(s: &mut GovernanceStorage, v: u64)
    ensures
        final(s)@ == (StorageState { proposal_cooldown: Some(v), ..old(s)@ }),
        final(s)@ == old(s)@.apply(StorageWrite::SetProposalCooldown(v)),
{
    s.proposal_cooldown = Some(v);
    assert(s@.voted =~= old(s)@.voted);
}

/// The cooldown between two proposals of one proposer, 0 when none was stored.
pub fn get_proposal_cooldown(s: &GovernanceStorage) -> (v: u64)
    ensures
        v == s@.cooldown(),
{
    match s.proposal_cooldown {
        Some(v) => v,
        None => 0,
    }
}

/// Stores the time of `proposer`'s latest proposal.
pub fn set_last_proposal(s: &mut GovernanceStorage, proposer: AccountId, ts: u64)
    ensures
        final(s)@ == (StorageState {
            last_proposal: old(s)@.last_proposal.insert(proposer, ts),
            ..old(s)@
        }),
        final(s)@ == old(s)@.apply(StorageWrite::SetLastProposal(proposer, ts)),
{
    s.last_proposal.insert(proposer, ts);
    assert(s@.voted =~= old(s)@.voted);
}

/// The time of `proposer`'s latest proposal, 0 when it has made none.
pub fn get_last_proposal(s: &GovernanceStorage, proposer: AccountId) -> (ts: u64)
    ensures
        ts == s@.last_proposal_of(proposer),
{
    match s.last_proposal.get(&proposer) {
        Some(t) => *t,
        None => 0,
    }
}

/// The time of `proposer`'s latest proposal, `None` when it has made none.
pub fn find_last_proposal(s: &GovernanceStorage, proposer: AccountId) -> (ts: Option<u64>)
    ensures
        ts == (if s@.last_proposal.contains_key(proposer) {
            Some(s@.last_proposal[proposer])
        } else {
            None
        }),
{
    match s.last_proposal.get(&proposer) {
        Some(t) => Some(*t),
        None => None,
    }
}

/// Stores the contract version.
pub fn set_version(s: &mut GovernanceStorage, version: (u32, u32, u32))
    ensures
        final(s)@ == (StorageState { version: Some(version), ..old(s)@ }),
        final(s)@ == old(s)@.apply(StorageWrite::SetVersion(version)),
{
    s.version = Some(version);
    assert(s@.voted =~= old(s)@.voted);
}

/// The stored contract version, `(0, 0, 0)` when none was stored.
pub fn get_version(s: &GovernanceStorage) -> (v: (u32, u32, u32))
    ensures
        v == s@.version_or_zero(),
{
    match s.version {
        Some(v) => v,
        None => (0, 0, 0),
    }
}

/// The number of proposals created so far.
pub fn get_proposal_count(s: &GovernanceStorage) -> (n: u64)
    ensures
        n == s@.count(),
{
    match s.proposal_count {
        Some(n) => n,
        None => 0,
    }
}

/// A proposal saved under its id is read back unchanged after any later
/// writes, as long as none of them saves another proposal under that id.
pub proof fn law_load_after_save(st: StorageState, p: ProposalView, later: Seq<StorageWrite>)
    requires
        forall|i: int|
            0 <= i < later.len() ==> !(#[trigger] later[i] matches StorageWrite::SaveProposal(q)
                && q.id == p.id),
    ensures
        st.apply(StorageWrite::SaveProposal(p)).apply_all(later).proposals.contains_key(p.id),
        st.apply(StorageWrite::SaveProposal(p)).apply_all(later).proposals[p.id] == p,
    decreases later.len(),
{
    if later.len() > 0 {
        let rest = later.drop_last();
        assert forall|i: int|
            0 <= i < rest.len() implies !(#[trigger] rest[i] matches StorageWrite::SaveProposal(q)
            && q.id == p.id) by {
            assert(rest[i] == later[i]);
        }
        law_load_after_save(st, p, rest);
        assert(!(later[later.len() - 1] matches StorageWrite::SaveProposal(q) && q.id == p.id));
    }
}

/// An id under which nothing is stored stays unknown through writes that
/// save no proposal under it.
pub proof fn law_unsaved_stays_unknown(st: StorageState, id: u64, writes: Seq<StorageWrite>)
    requires
        !st.proposals.contains_key(id),
        forall|i: int|
            0 <= i < writes.len() ==> !(#[trigger] writes[i] matches StorageWrite::SaveProposal(q)
                && q.id == id),
    ensures
        !st.apply_all(writes).proposals.contains_key(id),
    decreases writes.len(),
{
    if writes.len() > 0 {
        let rest = writes.drop_last();
        assert forall|i: int|
            0 <= i < rest.len() implies !(#[trigger] rest[i] matches StorageWrite::SaveProposal(q)
            && q.id == id) by {
            assert(rest[i] == writes[i]);
        }
        law_unsaved_stays_unknown(st, id, rest);
        assert(!(writes[writes.len() - 1] matches StorageWrite::SaveProposal(q) && q.id == id));
    }
}

/// After any writes, a vote of `voter` on `proposal_id` is recorded exactly
/// when it was recorded before or one of the writes marked it: no other
/// write adds or removes a vote record.
pub proof fn law_vote_record_until_marked(
    st: StorageState,
    writes: Seq<StorageWrite>,
    proposal_id: u64,
    voter: AccountId,
)
    ensures
        st.apply_all(writes).voted.contains((proposal_id, voter)) == (st.voted.contains(
            (proposal_id, voter),
        ) || exists|i: int|
            0 <= i < writes.len() && #[trigger] writes[i] == StorageWrite::MarkVoted(
                proposal_id,
                voter,
            )),
    decreases writes.len(),
{
    if writes.len() > 0 {
        let rest = writes.drop_last();
        law_vote_record_until_marked(st, rest, proposal_id, voter);
        let marked = StorageWrite::MarkVoted(proposal_id, voter);
        if exists|i: int| 0 <= i < rest.len() && #[trigger] rest[i] == marked {
            let i = choose|i: int| 0 <= i < rest.len() && #[trigger] rest[i] == marked;
            assert(writes[i] == marked);
        }
        if exists|i: int| 0 <= i < writes.len() && #[trigger] writes[i] == marked {
            let i = choose|i: int| 0 <= i < writes.len() && #[trigger] writes[i] == marked;
            if i < rest.len() {
                assert(rest[i] == marked);
            }
        }
        if writes.last() == marked {
            assert(writes[writes.len() - 1] == marked);
        }
    }
}

/// A fresh storage records no vote.
pub proof fn law_fresh_storage_records_no_vote(proposal_id: u64, voter: AccountId)
    ensures
        !StorageState::empty().voted.contains((proposal_id, voter)),
{
}

} // verus!
