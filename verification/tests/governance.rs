use votechain::accounts::AccountId;
use votechain::governance::contract::GovernanceContract;
use votechain::governance::types::{ContractError, GovernanceEvent, ProposalStatus, Vote};
use votechain::token::contract::TokenContract;

/// The account that stands for the all-zero address.
const ZERO_ACCOUNT: AccountId = 0;

/// A governance contract wired to a voting token, with a ledger clock.
struct TestEnv {
    client: GovernanceContract,
    token: TokenContract,
    admin: AccountId,
    token_id: AccountId,
    now: u64,
    next_account: AccountId,
}

impl TestEnv {
    fn generate(&mut self) -> AccountId {
        let a = self.next_account;
        self.next_account += 1;
        a
    }
}

fn setup_env() -> TestEnv {
    let mut t = TestEnv {
        client: GovernanceContract::new(),
        token: TokenContract::new(),
        admin: 0,
        token_id: 0,
        now: 0,
        next_account: 1,
    };
    t.admin = t.generate();
    t.token_id = t.generate();
    t.token.initialize(t.admin, 0);
    t.client.initialize(t.admin, t.token_id, 0, 0).unwrap();
    t
}

fn bytes(s: &str) -> Vec<u8> {
    s.as_bytes().to_vec()
}

fn create_proposal(t: &mut TestEnv, proposer: AccountId, title: &str, desc: &str, quorum: i128, duration: u64) -> u64 {
    let balance = t.token.balance(proposer);
    t.client
        .create_proposal(proposer, bytes(title), bytes(desc), quorum, duration, t.now, balance)
        .unwrap()
}

fn create_test_proposal(t: &mut TestEnv, proposer: AccountId) -> u64 {
    create_proposal(t, proposer, "Test", "desc", 100, 3600)
}

/// Mints `amount` voting tokens to `voter`, then votes with the voter's balance.
fn try_mint_and_vote(t: &mut TestEnv, voter: AccountId, id: u64, vote: Vote, amount: i128) -> Result<(), ContractError> {
    t.token.mint(t.admin, voter, amount).unwrap();
    let weight = t.token.balance(voter);
    t.client.cast_vote(voter, id, vote, t.now, weight)
}

fn mint_and_vote(t: &mut TestEnv, voter: AccountId, id: u64, vote: Vote, amount: i128) {
    try_mint_and_vote(t, voter, id, vote, amount).unwrap();
}

fn vote_with_balance(t: &mut TestEnv, voter: AccountId, id: u64, vote: Vote) -> Result<(), ContractError> {
    let weight = t.token.balance(voter);
    t.client.cast_vote(voter, id, vote, t.now, weight)
}

/// A passed proposal (one Yes vote of 1_000_000, finalised) on a fresh contract
/// administered by `admin`.
fn setup_passed_proposal(admin: AccountId) -> (GovernanceContract, u64) {
    let voter: AccountId = 100;
    let token_id: AccountId = 101;
    let mut token = TokenContract::new();
    token.initialize(voter, 1_000_000);
    let mut client = GovernanceContract::new();
    client.initialize(admin, token_id, 0, 0).unwrap();
    let id = client.create_proposal(voter, bytes("Prop"), bytes("desc"), 100, 3600, 0, 0).unwrap();
    client.cast_vote(voter, id, Vote::Yes, 0, token.balance(voter)).unwrap();
    client.finalise(id, 3601).unwrap();
    (client, id)
}

/// An active proposal on a fresh contract administered by `admin`.
fn setup_active_proposal(admin: AccountId) -> (GovernanceContract, u64) {
    let proposer: AccountId = 100;
    let token_id: AccountId = 101;
    let mut client = GovernanceContract::new();
    client.initialize(admin, token_id, 0, 0).unwrap();
    let id = client.create_proposal(proposer, bytes("Prop"), bytes("desc"), 100, 3600, 0, 0).unwrap();
    (client, id)
}

fn status_of(t: &TestEnv, id: u64) -> ProposalStatus {
    t.client.get_proposal(id).unwrap().status
}

fn vote_events(events: &[GovernanceEvent], id: u64) -> Vec<GovernanceEvent> {
    events
        .iter()
        .filter(|e| matches!(e, GovernanceEvent::VoteCast { id: i, .. } if *i == id))
        .cloned()
        .collect()
}

// ── basic lifecycle ─────────────────────────────────────────────────────────

#[test]
fn test_create_proposal() {
    let mut t = setup_env();
    let proposer = t.generate();
    let id = create_test_proposal(&mut t, proposer);
    assert_eq!(id, 1);
    assert_eq!(t.client.proposal_count(), 1);
    assert_eq!(status_of(&t, id), ProposalStatus::Active);
}

#[test]
fn test_cast_vote_and_finalise_passed() {
    let mut t = setup_env();
    let voter = t.generate();
    let id = create_test_proposal(&mut t, voter);
    mint_and_vote(&mut t, voter, id, Vote::Yes, 1_000_000);
    assert!(t.client.has_voted(id, voter).unwrap());
    assert_eq!(t.client.get_proposal(id).unwrap().votes_yes, 1_000_000);
    t.now += 3601;
    t.client.finalise(id, t.now).unwrap();
    assert_eq!(status_of(&t, id), ProposalStatus::Passed);
}

#[test]
fn test_finalise_rejected_below_quorum() {
    let mut t = setup_env();
    let voter = t.generate();
    let id = create_proposal(&mut t, voter, "B", "desc", 9_999_999, 3600);
    mint_and_vote(&mut t, voter, id, Vote::Yes, 1_000_000);
    t.now += 3601;
    t.client.finalise(id, t.now).unwrap();
    assert_eq!(status_of(&t, id), ProposalStatus::Rejected);
}

#[test]
fn test_finalise_rejected_no_wins() {
    let mut t = setup_env();
    let voter = t.generate();
    let id = create_test_proposal(&mut t, voter);
    mint_and_vote(&mut t, voter, id, Vote::No, 1_000_000);
    t.now += 3601;
    t.client.finalise(id, t.now).unwrap();
    assert_eq!(status_of(&t, id), ProposalStatus::Rejected);
}

#[test]
fn test_execute_passed_proposal() {
    let mut t = setup_env();
    let voter = t.generate();
    let id = create_test_proposal(&mut t, voter);
    mint_and_vote(&mut t, voter, id, Vote::Yes, 1_000_000);
    t.now += 3601;
    t.client.finalise(id, t.now).unwrap();
    t.client.execute(t.admin, id).unwrap();
    assert_eq!(status_of(&t, id), ProposalStatus::Executed);
}

#[test]
fn test_cancel_proposal() {
    let mut t = setup_env();
    let proposer = t.generate();
    let id = create_test_proposal(&mut t, proposer);
    t.client.cancel(t.admin, id).unwrap();
    assert_eq!(status_of(&t, id), ProposalStatus::Cancelled);
}

// ── concurrent proposals ────────────────────────────────────────────────────

#[test]
fn test_concurrent_proposals_independent_votes() {
    let mut t = setup_env();
    let voter = t.generate();
    let id1 = create_test_proposal(&mut t, voter);
    let id2 = create_test_proposal(&mut t, voter);
    let id3 = create_test_proposal(&mut t, voter);
    mint_and_vote(&mut t, voter, id1, Vote::Yes, 1_000_000);
    assert!(t.client.has_voted(id1, voter).unwrap());
    assert!(!t.client.has_voted(id2, voter).unwrap());
    assert!(!t.client.has_voted(id3, voter).unwrap());
}

#[test]
fn test_concurrent_votes_do_not_bleed() {
    let mut t = setup_env();
    let voter = t.generate();
    let id1 = create_test_proposal(&mut t, voter);
    let id2 = create_test_proposal(&mut t, voter);
    mint_and_vote(&mut t, voter, id1, Vote::Yes, 1_000_000);
    assert_eq!(t.client.get_proposal(id1).unwrap().votes_yes, 1_000_000);
    let p2 = t.client.get_proposal(id2).unwrap();
    assert_eq!(p2.votes_yes, 0);
    assert_eq!(p2.votes_no, 0);
    assert_eq!(p2.votes_abstain, 0);
}

#[test]
fn test_finalise_one_does_not_affect_others() {
    let mut t = setup_env();
    let voter = t.generate();
    let id1 = create_test_proposal(&mut t, voter);
    let id2 = create_proposal(&mut t, voter, "P2", "d", 1, 7200);
    mint_and_vote(&mut t, voter, id1, Vote::Yes, 1_000_000);
    t.now += 3601;
    t.client.finalise(id1, t.now).unwrap();
    assert_ne!(status_of(&t, id1), ProposalStatus::Active);
    assert_eq!(status_of(&t, id2), ProposalStatus::Active);
}

#[test]
fn test_proposal_ids_are_unique() {
    let mut t = setup_env();
    let proposer = t.generate();
    let id1 = create_test_proposal(&mut t, proposer);
    let id2 = create_test_proposal(&mut t, proposer);
    let id3 = create_test_proposal(&mut t, proposer);
    assert!(id1 != id2 && id2 != id3 && id1 != id3);
    assert_eq!(t.client.proposal_count(), 3);
}

#[test]
fn test_proposals_at_different_lifecycle_stages() {
    let mut t = setup_env();
    let voter = t.generate();
    let active_id = create_proposal(&mut t, voter, "Active", "d", 1, 7200);
    let passed_id = create_test_proposal(&mut t, voter);
    let rejected_id = create_proposal(&mut t, voter, "Rejected", "d", 9_999_999, 3600);
    let cancelled_id = create_test_proposal(&mut t, voter);

    mint_and_vote(&mut t, voter, passed_id, Vote::Yes, 1_000_000);
    t.client.cancel(t.admin, cancelled_id).unwrap();

    t.now += 3601;
    t.client.finalise(passed_id, t.now).unwrap();
    t.client.finalise(rejected_id, t.now).unwrap();

    assert_eq!(status_of(&t, active_id), ProposalStatus::Active);
    assert_eq!(status_of(&t, passed_id), ProposalStatus::Passed);
    assert_eq!(status_of(&t, rejected_id), ProposalStatus::Rejected);
    assert_eq!(status_of(&t, cancelled_id), ProposalStatus::Cancelled);
}

#[test]
fn test_cannot_vote_twice() {
    let mut t = setup_env();
    let voter = t.generate();
    let id = create_test_proposal(&mut t, voter);
    mint_and_vote(&mut t, voter, id, Vote::Yes, 1_000_000);
    assert_eq!(vote_with_balance(&mut t, voter, id, Vote::No), Err(ContractError::AlreadyVoted));
}

// ── access control ──────────────────────────────────────────────────────────

#[test]
fn test_execute_non_admin_reverts() {
    let admin: AccountId = 1;
    let non_admin: AccountId = 2;
    let (mut client, id) = setup_passed_proposal(admin);
    assert_eq!(client.execute(non_admin, id), Err(ContractError::NotAdmin));
}

#[test]
fn test_execute_zero_address_reverts() {
    let admin: AccountId = 1;
    let (mut client, id) = setup_passed_proposal(admin);
    assert_eq!(client.execute(ZERO_ACCOUNT, id), Err(ContractError::NotAdmin));
}

#[test]
fn test_cancel_non_admin_reverts() {
    let admin: AccountId = 1;
    let non_admin: AccountId = 2;
    let (mut client, id) = setup_active_proposal(admin);
    assert_eq!(client.cancel(non_admin, id), Err(ContractError::NotAdmin));
}

#[test]
fn test_cancel_zero_address_reverts() {
    let admin: AccountId = 1;
    let (mut client, id) = setup_active_proposal(admin);
    assert_eq!(client.cancel(ZERO_ACCOUNT, id), Err(ContractError::NotAdmin));
}

// ── update_quorum ───────────────────────────────────────────────────────────

#[test]
fn test_update_quorum_success() {
    let mut t = setup_env();
    let proposer = t.generate();
    let id = create_test_proposal(&mut t, proposer);
    t.client.update_quorum(t.admin, id, 500).unwrap();
    assert_eq!(t.client.get_proposal(id).unwrap().quorum, 500);
}

#[test]
fn test_update_quorum_non_admin_reverts() {
    let mut t = setup_env();
    let non_admin = t.generate();
    let admin = t.admin;
    let id = create_test_proposal(&mut t, admin);
    assert_eq!(t.client.update_quorum(non_admin, id, 500), Err(ContractError::NotAdmin));
}

#[test]
fn test_update_quorum_zero_reverts() {
    let mut t = setup_env();
    let admin = t.admin;
    let id = create_test_proposal(&mut t, admin);
    assert_eq!(t.client.update_quorum(admin, id, 0), Err(ContractError::InvalidQuorum));
}

#[test]
fn test_update_quorum_inactive_proposal_reverts() {
    let mut t = setup_env();
    let admin = t.admin;
    let id = create_test_proposal(&mut t, admin);
    t.client.cancel(admin, id).unwrap();
    assert_eq!(t.client.update_quorum(admin, id, 500), Err(ContractError::ProposalNotActive));
}

// ── storage persistence ─────────────────────────────────────────────────────

#[test]
fn test_proposal_data_persists_unchanged() {
    let mut t = setup_env();
    let proposer = t.generate();
    let id = create_proposal(&mut t, proposer, "Persist title", "Persist desc", 250, 1800);
    let p = t.client.get_proposal(id).unwrap();
    assert_eq!(p.id, id);
    assert_eq!(p.title, bytes("Persist title"));
    assert_eq!(p.description, bytes("Persist desc"));
    assert_eq!(p.quorum, 250);
    assert_eq!(p.status, ProposalStatus::Active);
    assert_eq!(p.proposer, proposer);
}

#[test]
fn test_vote_records_persist_across_multiple_voters() {
    let mut t = setup_env();
    let voter1 = t.generate();
    let voter2 = t.generate();
    let voter3 = t.generate();
    let id = create_test_proposal(&mut t, voter1);

    mint_and_vote(&mut t, voter1, id, Vote::Yes, 300_000);
    mint_and_vote(&mut t, voter2, id, Vote::No, 300_000);
    mint_and_vote(&mut t, voter3, id, Vote::Abstain, 300_000);

    assert!(t.client.has_voted(id, voter1).unwrap());
    assert!(t.client.has_voted(id, voter2).unwrap());
    assert!(t.client.has_voted(id, voter3).unwrap());
    let p = t.client.get_proposal(id).unwrap();
    assert!(p.votes_yes > 0);
    assert!(p.votes_no > 0);
    assert!(p.votes_abstain > 0);
}

#[test]
fn test_admin_persists_after_initialization() {
    let mut t = setup_env();
    let admin = t.admin;
    let id = create_test_proposal(&mut t, admin);
    t.client.cancel(admin, id).unwrap();
    assert_eq!(status_of(&t, id), ProposalStatus::Cancelled);
}

#[test]
fn test_no_data_lost_between_calls() {
    let mut t = setup_env();
    let voter = t.generate();
    let id1 = create_test_proposal(&mut t, voter);
    let id2 = create_proposal(&mut t, voter, "P2", "d2", 200, 7200);

    mint_and_vote(&mut t, voter, id1, Vote::Yes, 1_000_000);

    let p2 = t.client.get_proposal(id2).unwrap();
    assert_eq!(p2.title, bytes("P2"));
    assert_eq!(p2.quorum, 200);
    assert_eq!(p2.votes_yes, 0);
    assert_eq!(p2.status, ProposalStatus::Active);
    assert!(!t.client.has_voted(id2, voter).unwrap());
}

// ── voting scenarios ────────────────────────────────────────────────────────

#[test]
fn test_vote_yes_recorded_correctly() {
    let mut t = setup_env();
    let voter = t.generate();
    let id = create_test_proposal(&mut t, voter);
    mint_and_vote(&mut t, voter, id, Vote::Yes, 500_000);
    let p = t.client.get_proposal(id).unwrap();
    assert_eq!(p.votes_yes, 500_000);
    assert_eq!(p.votes_no, 0);
    assert_eq!(p.votes_abstain, 0);
}

#[test]
fn test_vote_no_recorded_correctly() {
    let mut t = setup_env();
    let voter = t.generate();
    let id = create_test_proposal(&mut t, voter);
    mint_and_vote(&mut t, voter, id, Vote::No, 750_000);
    let p = t.client.get_proposal(id).unwrap();
    assert_eq!(p.votes_yes, 0);
    assert_eq!(p.votes_no, 750_000);
    assert_eq!(p.votes_abstain, 0);
}

#[test]
fn test_vote_abstain_recorded_correctly() {
    let mut t = setup_env();
    let voter = t.generate();
    let id = create_test_proposal(&mut t, voter);
    mint_and_vote(&mut t, voter, id, Vote::Abstain, 250_000);
    let p = t.client.get_proposal(id).unwrap();
    assert_eq!(p.votes_yes, 0);
    assert_eq!(p.votes_no, 0);
    assert_eq!(p.votes_abstain, 250_000);
}

#[test]
fn test_vote_weight_matches_token_balance() {
    let mut t = setup_env();
    let voter = t.generate();
    let id = create_test_proposal(&mut t, voter);
    let balance = 1_234_567;
    mint_and_vote(&mut t, voter, id, Vote::Yes, balance);
    assert_eq!(t.client.get_proposal(id).unwrap().votes_yes, balance);
}

#[test]
fn test_double_vote_same_choice_reverts() {
    let mut t = setup_env();
    let voter = t.generate();
    let id = create_test_proposal(&mut t, voter);
    mint_and_vote(&mut t, voter, id, Vote::Yes, 1_000_000);
    assert_eq!(vote_with_balance(&mut t, voter, id, Vote::Yes), Err(ContractError::AlreadyVoted));
}

#[test]
fn test_double_vote_different_choice_reverts() {
    let mut t = setup_env();
    let voter = t.generate();
    let id = create_test_proposal(&mut t, voter);
    mint_and_vote(&mut t, voter, id, Vote::Yes, 1_000_000);
    assert_eq!(vote_with_balance(&mut t, voter, id, Vote::No), Err(ContractError::AlreadyVoted));
}

#[test]
fn test_vote_on_passed_proposal_reverts() {
    let mut t = setup_env();
    let voter = t.generate();
    let id = create_test_proposal(&mut t, voter);
    mint_and_vote(&mut t, voter, id, Vote::Yes, 1_000_000);
    t.now += 3601;
    t.client.finalise(id, t.now).unwrap();
    let voter2 = t.generate();
    assert_eq!(
        try_mint_and_vote(&mut t, voter2, id, Vote::Yes, 500_000),
        Err(ContractError::ProposalNotActive)
    );
}

#[test]
fn test_vote_on_rejected_proposal_reverts() {
    let mut t = setup_env();
    let voter = t.generate();
    let id = create_test_proposal(&mut t, voter);
    mint_and_vote(&mut t, voter, id, Vote::No, 1_000_000);
    t.now += 3601;
    t.client.finalise(id, t.now).unwrap();
    let voter2 = t.generate();
    assert_eq!(
        try_mint_and_vote(&mut t, voter2, id, Vote::Yes, 500_000),
        Err(ContractError::ProposalNotActive)
    );
}

#[test]
fn test_vote_on_cancelled_proposal_reverts() {
    let mut t = setup_env();
    let voter = t.generate();
    let id = create_test_proposal(&mut t, voter);
    t.client.cancel(t.admin, id).unwrap();
    assert_eq!(
        try_mint_and_vote(&mut t, voter, id, Vote::Yes, 1_000_000),
        Err(ContractError::ProposalNotActive)
    );
}

#[test]
fn test_vote_on_executed_proposal_reverts() {
    let mut t = setup_env();
    let voter = t.generate();
    let id = create_test_proposal(&mut t, voter);
    mint_and_vote(&mut t, voter, id, Vote::Yes, 1_000_000);
    t.now += 3601;
    t.client.finalise(id, t.now).unwrap();
    t.client.execute(t.admin, id).unwrap();
    let voter2 = t.generate();
    assert_eq!(
        try_mint_and_vote(&mut t, voter2, id, Vote::Yes, 500_000),
        Err(ContractError::ProposalNotActive)
    );
}

#[test]
fn test_vote_after_end_time_reverts() {
    let mut t = setup_env();
    let voter = t.generate();
    let id = create_test_proposal(&mut t, voter);
    t.now += 3601;
    assert_eq!(
        try_mint_and_vote(&mut t, voter, id, Vote::Yes, 1_000_000),
        Err(ContractError::VotingPeriodEnded)
    );
}

#[test]
fn test_vote_at_exact_end_time_reverts() {
    let mut t = setup_env();
    let voter = t.generate();
    let now = t.now;
    let id = create_proposal(&mut t, voter, "Test", "desc", 1, 3600);
    t.now = now + 3600;
    let result = try_mint_and_vote(&mut t, voter, id, Vote::Yes, 1_000_000);
    assert!(result.is_err());
}

#[test]
fn test_vote_with_zero_balance_reverts() {
    let mut t = setup_env();
    let voter = t.generate();
    let id = create_test_proposal(&mut t, voter);
    assert_eq!(vote_with_balance(&mut t, voter, id, Vote::Yes), Err(ContractError::NoVotingPower));
}

#[test]
fn test_vote_tallies_accumulate_correctly() {
    let mut t = setup_env();
    let voter1 = t.generate();
    let voter2 = t.generate();
    let voter3 = t.generate();
    let id = create_test_proposal(&mut t, voter1);
    mint_and_vote(&mut t, voter1, id, Vote::Yes, 100_000);
    mint_and_vote(&mut t, voter2, id, Vote::Yes, 200_000);
    mint_and_vote(&mut t, voter3, id, Vote::No, 150_000);
    let p = t.client.get_proposal(id).unwrap();
    assert_eq!(p.votes_yes, 300_000);
    assert_eq!(p.votes_no, 150_000);
    assert_eq!(p.votes_abstain, 0);
}

#[test]
fn test_vote_tallies_all_three_types() {
    let mut t = setup_env();
    let v1 = t.generate();
    let v2 = t.generate();
    let v3 = t.generate();
    let v4 = t.generate();
    let v5 = t.generate();
    let id = create_test_proposal(&mut t, v1);
    mint_and_vote(&mut t, v1, id, Vote::Yes, 100_000);
    mint_and_vote(&mut t, v2, id, Vote::Yes, 200_000);
    mint_and_vote(&mut t, v3, id, Vote::No, 150_000);
    mint_and_vote(&mut t, v4, id, Vote::No, 50_000);
    mint_and_vote(&mut t, v5, id, Vote::Abstain, 75_000);
    let p = t.client.get_proposal(id).unwrap();
    assert_eq!(p.votes_yes, 300_000);
    assert_eq!(p.votes_no, 200_000);
    assert_eq!(p.votes_abstain, 75_000);
}

// ── re-initialisation guard ─────────────────────────────────────────────────

#[test]
fn test_reinit_by_original_admin_reverts() {
    let mut t = setup_env();
    assert_eq!(
        t.client.initialize(t.admin, t.token_id, 0, 0),
        Err(ContractError::AlreadyInitialized)
    );
}

#[test]
fn test_reinit_by_new_address_reverts() {
    let mut t = setup_env();
    let attacker = t.generate();
    let new_token = t.generate();
    assert_eq!(t.client.initialize(attacker, new_token, 0, 0), Err(ContractError::AlreadyInitialized));
}

#[test]
fn test_reinit_by_zero_address_reverts() {
    let mut t = setup_env();
    assert_eq!(
        t.client.initialize(ZERO_ACCOUNT, t.token_id, 0, 0),
        Err(ContractError::AlreadyInitialized)
    );
}

// ── events ──────────────────────────────────────────────────────────────────

#[test]
fn test_event_proposal_created_topics_and_data() {
    let mut t = setup_env();
    let proposer = t.generate();
    let id = create_test_proposal(&mut t, proposer);
    let created = t
        .client
        .events()
        .iter()
        .find(|e| matches!(e, GovernanceEvent::Created { id: i, .. } if *i == id))
        .cloned();
    assert!(created.is_some());
    assert_eq!(created.unwrap(), GovernanceEvent::Created { id, proposer });
    assert_eq!(t.client.events().len(), 1);
}

#[test]
fn test_event_vote_cast_topics_and_data() {
    let mut t = setup_env();
    let voter = t.generate();
    let id = create_test_proposal(&mut t, voter);
    let weight = 1_000_000_i128;
    mint_and_vote(&mut t, voter, id, Vote::Yes, weight);
    let votes = vote_events(t.client.events(), id);
    assert!(!votes.is_empty());
    assert_eq!(votes[0], GovernanceEvent::VoteCast { id, voter, vote: Vote::Yes, weight });
    assert_eq!(votes.len(), 1);
}

#[test]
fn test_event_proposal_finalised_passed() {
    let mut t = setup_env();
    let voter = t.generate();
    let id = create_test_proposal(&mut t, voter);
    mint_and_vote(&mut t, voter, id, Vote::Yes, 1_000_000);
    t.now += 3601;
    t.client.finalise(id, t.now).unwrap();
    assert!(t.client.events().contains(&GovernanceEvent::Final { id, status: ProposalStatus::Passed }));
}

#[test]
fn test_event_proposal_finalised_rejected() {
    let mut t = setup_env();
    let voter = t.generate();
    let id = create_test_proposal(&mut t, voter);
    mint_and_vote(&mut t, voter, id, Vote::No, 1_000_000);
    t.now += 3601;
    t.client.finalise(id, t.now).unwrap();
    assert!(t.client.events().contains(&GovernanceEvent::Final { id, status: ProposalStatus::Rejected }));
}

#[test]
fn test_event_proposal_executed() {
    let mut t = setup_env();
    let voter = t.generate();
    let id = create_test_proposal(&mut t, voter);
    mint_and_vote(&mut t, voter, id, Vote::Yes, 1_000_000);
    t.now += 3601;
    t.client.finalise(id, t.now).unwrap();
    t.client.execute(t.admin, id).unwrap();
    assert!(t.client.events().contains(&GovernanceEvent::Final { id, status: ProposalStatus::Executed }));
}

#[test]
fn test_event_proposal_cancelled() {
    let mut t = setup_env();
    let proposer = t.generate();
    let id = create_test_proposal(&mut t, proposer);
    t.client.cancel(t.admin, id).unwrap();
    assert!(t.client.events().contains(&GovernanceEvent::Final { id, status: ProposalStatus::Cancelled }));
}

#[test]
fn test_event_quorum_updated() {
    let mut t = setup_env();
    let proposer = t.generate();
    let id = create_test_proposal(&mut t, proposer);
    let new_quorum = 500_i128;
    t.client.update_quorum(t.admin, id, new_quorum).unwrap();
    assert!(t.client.events().contains(&GovernanceEvent::QuorumUpdated { id, new_quorum }));
}

#[test]
fn test_event_vote_yes_data_fields() {
    let mut t = setup_env();
    let voter = t.generate();
    let id = create_test_proposal(&mut t, voter);
    let weight = 750_000_i128;
    mint_and_vote(&mut t, voter, id, Vote::Yes, weight);
    let votes = vote_events(t.client.events(), id);
    assert!(!votes.is_empty());
    assert_eq!(votes[0], GovernanceEvent::VoteCast { id, voter, vote: Vote::Yes, weight });
}

#[test]
fn test_event_vote_no_data_fields() {
    let mut t = setup_env();
    let voter = t.generate();
    let id = create_test_proposal(&mut t, voter);
    let weight = 250_000_i128;
    mint_and_vote(&mut t, voter, id, Vote::No, weight);
    let votes = vote_events(t.client.events(), id);
    assert!(!votes.is_empty());
    assert_eq!(votes[0], GovernanceEvent::VoteCast { id, voter, vote: Vote::No, weight });
}

#[test]
fn test_event_vote_abstain_data_fields() {
    let mut t = setup_env();
    let voter = t.generate();
    let id = create_test_proposal(&mut t, voter);
    let weight = 500_000_i128;
    mint_and_vote(&mut t, voter, id, Vote::Abstain, weight);
    let votes = vote_events(t.client.events(), id);
    assert!(!votes.is_empty());
    assert_eq!(votes[0], GovernanceEvent::VoteCast { id, voter, vote: Vote::Abstain, weight });
}

#[test]
fn test_no_unexpected_events_on_create() {
    let mut t = setup_env();
    let proposer = t.generate();
    let events_before = t.client.events().len();
    let id = create_test_proposal(&mut t, proposer);
    let new_events: Vec<GovernanceEvent> = t.client.events().iter().skip(events_before).cloned().collect();
    assert_eq!(new_events.len(), 1);
    assert_eq!(new_events[0], GovernanceEvent::Created { id, proposer });
}

#[test]
fn test_no_unexpected_events_on_vote() {
    let mut t = setup_env();
    let voter = t.generate();
    let id = create_test_proposal(&mut t, voter);
    let events_before = t.client.events().len();
    mint_and_vote(&mut t, voter, id, Vote::Yes, 1_000_000);
    let new_events: Vec<GovernanceEvent> = t.client.events().iter().skip(events_before).cloned().collect();
    assert_eq!(vote_events(&new_events, id).len(), 1);
}

#[test]
fn test_multiple_votes_emit_separate_events() {
    let mut t = setup_env();
    let v1 = t.generate();
    let v2 = t.generate();
    let v3 = t.generate();
    let id = create_test_proposal(&mut t, v1);
    mint_and_vote(&mut t, v1, id, Vote::Yes, 100_000);
    mint_and_vote(&mut t, v2, id, Vote::No, 200_000);
    mint_and_vote(&mut t, v3, id, Vote::Abstain, 300_000);
    assert_eq!(vote_events(t.client.events(), id).len(), 3);
}
