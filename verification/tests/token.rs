use votechain::accounts::AccountId;
use votechain::token::contract::TokenContract;
use votechain::token::types::{ContractError, TokenEvent};

/// A fresh token contract and a supply of distinct accounts.
struct TokenEnv {
    c: TokenContract,
    next_account: AccountId,
}

impl TokenEnv {
    fn generate(&mut self) -> AccountId {
        let a = self.next_account;
        self.next_account += 1;
        a
    }
}

fn setup() -> TokenEnv {
    TokenEnv { c: TokenContract::new(), next_account: 1 }
}

#[test]
fn test_initialize() {
    let mut t = setup();
    let admin = t.generate();
    t.c.initialize(admin, 1_000_000);
    assert_eq!(t.c.total_supply(), 1_000_000);
    assert_eq!(t.c.balance(admin), 1_000_000);
}

#[test]
fn test_transfer() {
    let mut t = setup();
    let admin = t.generate();
    let user = t.generate();
    t.c.initialize(admin, 1_000);
    t.c.transfer(admin, user, 400).unwrap();
    assert_eq!(t.c.balance(admin), 600);
    assert_eq!(t.c.balance(user), 400);
}

#[test]
fn test_mint_burn() {
    let mut t = setup();
    let admin = t.generate();
    let user = t.generate();
    t.c.initialize(admin, 1_000);
    t.c.mint(admin, user, 500).unwrap();
    assert_eq!(t.c.total_supply(), 1_500);
    t.c.burn(admin, user, 200).unwrap();
    assert_eq!(t.c.total_supply(), 1_300);
}

#[test]
fn test_overdraft() {
    let mut t = setup();
    let admin = t.generate();
    let user = t.generate();
    t.c.initialize(admin, 100);
    assert_eq!(t.c.transfer(admin, user, 999), Err(ContractError::InsufficientBalance));
}

#[test]
fn test_mint_non_admin() {
    let mut t = setup();
    let admin = t.generate();
    let user = t.generate();
    t.c.initialize(admin, 1_000);
    assert_eq!(t.c.mint(user, user, 500), Err(ContractError::NotAdmin));
}

#[test]
fn test_balance_of() {
    let mut t = setup();
    let admin = t.generate();
    let user1 = t.generate();
    let user2 = t.generate();
    t.c.initialize(admin, 1_000);
    assert_eq!(t.c.balance(admin), 1_000);
    assert_eq!(t.c.balance(user1), 0);
    t.c.transfer(admin, user1, 300).unwrap();
    assert_eq!(t.c.balance(admin), 700);
    assert_eq!(t.c.balance(user1), 300);
    assert_eq!(t.c.balance(user2), 0);
}

#[test]
fn test_transfer_atomicity() {
    let mut t = setup();
    let admin = t.generate();
    let user = t.generate();
    t.c.initialize(admin, 1_000);
    let before_total = t.c.total_supply();
    t.c.transfer(admin, user, 400).unwrap();
    assert_eq!(t.c.balance(admin) + t.c.balance(user), before_total);
    assert_eq!(t.c.total_supply(), before_total);
}

#[test]
fn test_mint_increases_supply() {
    let mut t = setup();
    let admin = t.generate();
    let user = t.generate();
    t.c.initialize(admin, 1_000);
    assert_eq!(t.c.total_supply(), 1_000);
    t.c.mint(admin, user, 500).unwrap();
    assert_eq!(t.c.balance(user), 500);
    assert_eq!(t.c.total_supply(), 1_500);
}

#[test]
fn test_events_mint() {
    let mut t = setup();
    let admin = t.generate();
    let user = t.generate();
    t.c.initialize(admin, 0);
    t.c.mint(admin, user, 300).unwrap();
    assert!(t.c.events().iter().any(|e| *e == TokenEvent::Minted { to: user, amount: 300 }));
}

#[test]
fn test_events_transfer() {
    let mut t = setup();
    let admin = t.generate();
    let user = t.generate();
    t.c.initialize(admin, 1_000);
    t.c.transfer(admin, user, 200).unwrap();
    assert!(t
        .c
        .events()
        .iter()
        .any(|e| *e == TokenEvent::Transferred { from: admin, to: user, amount: 200 }));
}

#[test]
fn test_events_burn() {
    let mut t = setup();
    let admin = t.generate();
    t.c.initialize(admin, 1_000);
    t.c.burn(admin, admin, 400).unwrap();
    assert!(t.c.events().iter().any(|e| *e == TokenEvent::Burned { from: admin, amount: 400 }));
}

// ── further rules of the token ──────────────────────────────────────────────

use votechain::token::events as token_events;
use votechain::token::storage::{TokenStorage, allowance, balance_of, set_allowance};

#[test]
fn transfer_refuses_non_positive_amounts() {
    let mut t = setup();
    let admin = t.generate();
    let user = t.generate();
    t.c.initialize(admin, 100);
    assert_eq!(t.c.transfer(admin, user, 0), Err(ContractError::InvalidAmount));
    assert_eq!(t.c.transfer(admin, user, -1), Err(ContractError::InvalidAmount));
    assert_eq!(t.c.balance(admin), 100);
    assert!(t.c.events().is_empty());
}

#[test]
fn transfer_to_self_keeps_balance() {
    let mut t = setup();
    let admin = t.generate();
    t.c.initialize(admin, 100);
    t.c.transfer(admin, admin, 60).unwrap();
    assert_eq!(t.c.balance(admin), 100);
    assert_eq!(t.c.total_supply(), 100);
}

#[test]
fn transfer_of_whole_balance() {
    let mut t = setup();
    let admin = t.generate();
    let user = t.generate();
    t.c.initialize(admin, 100);
    t.c.transfer(admin, user, 100).unwrap();
    assert_eq!(t.c.balance(admin), 0);
    assert_eq!(t.c.transfer(admin, user, 1), Err(ContractError::InsufficientBalance));
}

#[test]
fn allowance_governs_transfer_from() {
    let mut t = setup();
    let owner = t.generate();
    let spender = t.generate();
    let receiver = t.generate();
    t.c.initialize(owner, 1_000);
    assert_eq!(t.c.transfer_from(spender, owner, receiver, 1), Err(ContractError::AllowanceExceeded));
    t.c.approve(owner, spender, 300);
    t.c.transfer_from(spender, owner, receiver, 200).unwrap();
    assert_eq!(t.c.balance(owner), 800);
    assert_eq!(t.c.balance(receiver), 200);
    assert_eq!(allowance(t.c.storage(), owner, spender), 100);
    assert_eq!(t.c.transfer_from(spender, owner, receiver, 101), Err(ContractError::AllowanceExceeded));
    // Approval overwrites rather than adds.
    t.c.approve(owner, spender, 50);
    assert_eq!(allowance(t.c.storage(), owner, spender), 50);
    assert_eq!(t.c.total_supply(), 1_000);
    // transfer_from publishes the transfer; approve publishes nothing.
    assert_eq!(
        t.c.events(),
        &vec![TokenEvent::Transferred { from: owner, to: receiver, amount: 200 }]
    );
}

#[test]
fn transfer_from_refuses_non_positive_amounts() {
    let mut t = setup();
    let owner = t.generate();
    let spender = t.generate();
    let receiver = t.generate();
    t.c.initialize(owner, 1_000);
    t.c.approve(owner, spender, 300);
    t.c.mint(owner, receiver, 50).unwrap();
    let events_before = t.c.events().len();
    assert_eq!(t.c.transfer_from(spender, owner, receiver, 0), Err(ContractError::InvalidAmount));
    assert_eq!(t.c.transfer_from(spender, owner, receiver, -40), Err(ContractError::InvalidAmount));
    assert_eq!(t.c.transfer_from(spender, owner, receiver, -4_000), Err(ContractError::InvalidAmount));
    assert_eq!(allowance(t.c.storage(), owner, spender), 300);
    assert_eq!(t.c.balance(receiver), 50);
    assert_eq!(t.c.balance(owner), 1_000);
    assert_eq!(t.c.events().len(), events_before);
}

#[test]
fn burn_refuses_non_positive_amounts() {
    let mut t = setup();
    let admin = t.generate();
    let user = t.generate();
    t.c.initialize(admin, 100);
    assert_eq!(t.c.burn(admin, admin, 0), Err(ContractError::InvalidAmount));
    assert_eq!(t.c.burn(admin, admin, -10), Err(ContractError::InvalidAmount));
    // The caller is checked first.
    assert_eq!(t.c.burn(user, admin, -10), Err(ContractError::NotAdmin));
    assert_eq!(t.c.balance(admin), 100);
    assert_eq!(t.c.total_supply(), 100);
    assert!(t.c.events().is_empty());
}

#[test]
fn transfer_from_checks_the_owner_balance() {
    let mut t = setup();
    let owner = t.generate();
    let spender = t.generate();
    t.c.initialize(owner, 10);
    t.c.approve(owner, spender, 1_000);
    assert_eq!(t.c.transfer_from(spender, owner, spender, 11), Err(ContractError::InsufficientBalance));
    assert_eq!(allowance(t.c.storage(), owner, spender), 1_000);
}

#[test]
fn allowances_are_directional() {
    let mut s = TokenStorage::new();
    set_allowance(&mut s, 1, 2, 40);
    assert_eq!(allowance(&s, 1, 2), 40);
    assert_eq!(allowance(&s, 2, 1), 0);
    assert_eq!(balance_of(&s, 1), 0);
}

#[test]
fn mint_and_burn_rules() {
    let mut t = setup();
    let admin = t.generate();
    let user = t.generate();
    assert_eq!(t.c.mint(admin, user, 5), Err(ContractError::AdminNotSet));
    assert_eq!(t.c.burn(admin, user, 5), Err(ContractError::AdminNotSet));
    t.c.initialize(admin, 0);
    assert_eq!(t.c.mint(admin, user, 0), Err(ContractError::InvalidAmount));
    assert_eq!(t.c.burn(admin, user, 0), Err(ContractError::InvalidAmount));
    t.c.mint(admin, user, 5).unwrap();
    assert_eq!(t.c.burn(user, user, 5), Err(ContractError::NotAdmin));
    assert_eq!(t.c.burn(admin, user, 6), Err(ContractError::InsufficientBalance));
    t.c.burn(admin, user, 5).unwrap();
    assert_eq!(t.c.balance(user), 0);
    assert_eq!(t.c.total_supply(), 0);
}

#[test]
fn supply_equals_sum_of_balances_over_a_session() {
    let mut t = setup();
    let admin = t.generate();
    let a = t.generate();
    let b = t.generate();
    t.c.initialize(admin, 10_000);
    t.c.transfer(admin, a, 2_500).unwrap();
    t.c.mint(admin, b, 700).unwrap();
    t.c.approve(a, b, 1_000);
    t.c.transfer_from(b, a, admin, 400).unwrap();
    t.c.burn(admin, admin, 1_200).unwrap();
    t.c.transfer(b, a, 700).unwrap();
    let sum = t.c.balance(admin) + t.c.balance(a) + t.c.balance(b);
    assert_eq!(sum, t.c.total_supply());
    assert_eq!(t.c.total_supply(), 9_500);
    assert_eq!(t.c.balance_of(a), t.c.balance(a));
}

#[test]
fn error_codes() {
    assert_eq!(ContractError::AdminNotSet.code(), 1);
    assert_eq!(ContractError::NotAdmin.code(), 2);
    assert_eq!(ContractError::InvalidAmount.code(), 3);
    assert_eq!(ContractError::InsufficientBalance.code(), 4);
    assert_eq!(ContractError::AllowanceExceeded.code(), 5);
}

#[test]
fn token_version() {
    let mut t = setup();
    assert_eq!(t.c.get_version(), (0, 0, 0));
    let admin = t.generate();
    t.c.initialize(admin, 1);
    assert_eq!(t.c.get_version(), (1, 0, 0));
}

#[test]
fn token_event_helpers() {
    let mut log = Vec::new();
    token_events::transferred(&mut log, 1, 2, 3);
    token_events::minted(&mut log, 2, 4);
    token_events::burned(&mut log, 2, 1);
    assert_eq!(
        log,
        vec![
            TokenEvent::Transferred { from: 1, to: 2, amount: 3 },
            TokenEvent::Minted { to: 2, amount: 4 },
            TokenEvent::Burned { from: 2, amount: 1 },
        ]
    );
}

#[test]
fn overflowing_token_calls_are_detected() {
    let mut t = setup();
    let admin = t.generate();
    let user = t.generate();
    let spender = t.generate();
    t.c.initialize(admin, i128::MAX);
    assert!(t.c.mint_overflows(admin, user, 1));
    assert!(!t.c.mint_overflows(user, user, 1));
    assert!(!t.c.transfer_overflows(admin, user, 1));
    assert!(!t.c.transfer_overflows(admin, admin, i128::MAX));
    assert!(!t.c.burn_overflows(admin, admin, 1));
    // A refused call never overflows.
    assert!(!t.c.burn_overflows(admin, user, i128::MIN));
    assert!(!t.c.transfer_from_overflows(spender, admin, user, i128::MIN));
    // A second initialisation breaks the accounting, so credits can overflow.
    t.c.transfer(admin, user, i128::MAX).unwrap();
    t.c.initialize(admin, i128::MAX);
    assert!(t.c.transfer_overflows(admin, user, 1));
    t.c.approve(admin, spender, 1);
    assert!(t.c.transfer_from_overflows(spender, admin, user, 1));
    // A supply at the bottom of the range cannot shrink further.
    let mut t2 = setup();
    let a = t2.generate();
    let b = t2.generate();
    t2.c.initialize(b, 5);
    t2.c.initialize(a, i128::MIN);
    assert!(t2.c.burn_overflows(a, b, 1));
}

#[test]
fn second_initialisation_replaces_admin_and_supply() {
    let mut t = setup();
    let a = t.generate();
    let b = t.generate();
    t.c.initialize(a, 100);
    t.c.transfer(a, b, 40).unwrap();
    t.c.initialize(a, 100);
    assert_eq!(t.c.total_supply(), 100);
    assert_eq!(t.c.balance(a) + t.c.balance(b), 140);
    t.c.initialize(b, 7);
    assert_eq!(t.c.mint(a, b, 1), Err(ContractError::NotAdmin));
    assert_eq!(t.c.balance(b), 7);
}
