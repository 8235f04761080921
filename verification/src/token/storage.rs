//! What the token contract keeps in storage, and the accessors that read
//! and write it.

use std::collections::HashMap;
use vstd::prelude::*;
use crate::accounts::{AccountId, pair_key, spec_pair_key, lemma_pair_key_injective};
use crate::token::types::ContractError;

verus! {

broadcast use vstd::std_specs::hash::group_hash_axioms;

/// The amount stored under `k` in `m`, 0 when nothing is stored there.
pub open spec fn amount_or_zero<K>(m: Map<K, i128>, k: K) -> i128 {
    if m.contains_key(k) {
        m[k]
    } else {
        0
    }
}

/// The mathematical value of the token storage. An `Option` field is `None`
/// while its entry has never been written.
pub struct TokenStorageState {
    /// Balances by owner.
    pub balances: Map<AccountId, i128>,
    /// Allowances by `(owner, spender)`.
    pub allowances: Map<(AccountId, AccountId), i128>,
    pub total_supply: Option<i128>,
    pub admin: Option<AccountId>,
    pub version: Option<(u32, u32, u32)>,
}

impl TokenStorageState {
    /// Storage of a freshly deployed contract: nothing written yet.
    pub open spec fn empty() -> TokenStorageState {
        TokenStorageState {
            balances: Map::empty(),
            allowances: Map::empty(),
            total_supply: None,
            admin: None,
            version: None,
        }
    }

    /// The balance of `owner` (0 when never written).
    pub open spec fn balance(self, owner: AccountId) -> i128 {
        amount_or_zero(self.balances, owner)
    }

    /// The allowance of `spender` over `owner`'s tokens (0 when never written).
    pub open spec fn allowance(self, owner: AccountId, spender: AccountId) -> i128 {
        amount_or_zero(self.allowances, (owner, spender))
    }

    /// The total supply (0 when never written).
    pub open spec fn supply(self) -> i128 {
        match self.total_supply {
            Some(v) => v,
            None => 0,
        }
    }

    /// The stored version, `(0, 0, 0)` when never written.
    pub open spec fn version_or_zero(self) -> (u32, u32, u32) {
        match self.version {
            Some(v) => v,
            None => (0, 0, 0),
        }
    }
}

/// The storage of one token contract.
pub struct TokenStorage {
    balances: HashMap<AccountId, i128>,
    /// Keys `pair_key(owner, spender)`.
    allowances: HashMap<u128, i128>,
    total_supply: Option<i128>,
    admin: Option<AccountId>,
    version: Option<(u32, u32, u32)>,
}

impl View for TokenStorage {
    type V = TokenStorageState;

    closed spec fn view(&self) -> TokenStorageState {
        TokenStorageState {
            balances: self.balances@,
            allowances: Map::new(
                |pair: (AccountId, AccountId)|
                    self.allowances@.contains_key(spec_pair_key(pair.0, pair.1)),
                |pair: (AccountId, AccountId)| self.allowances@[spec_pair_key(pair.0, pair.1)],
            ),
            total_supply: self.total_supply,
            admin: self.admin,
            version: self.version,
        }
    }
}

impl TokenStorage {
    /// Storage of a freshly deployed contract.
    pub fn new() -> (s: TokenStorage)
        ensures
            s@ == TokenStorageState::empty(),
    {
        let s = TokenStorage {
            balances: HashMap::new(),
            allowances: HashMap::new(),
            total_supply: None,
            admin: None,
            version: None,
        };
        assert(s@.allowances =~= Map::empty());
        s
    }
}

/// The balance of `owner`, 0 when it never held tokens.
pub fn balance_of(s: &TokenStorage, owner: AccountId) -> (b: i128)
    ensures
        b == s@.balance(owner),
{
    match s.balances.get(&owner) {
        Some(b) => *b,
        None => 0,
    }
}

/// Sets the balance of `owner` to `amount`.
pub fn set_balance(s: &mut TokenStorage, owner: AccountId, amount: i128)
    ensures
        final(s)@ == (TokenStorageState { balances: old(s)@.balances.insert(owner, amount), ..old(s)@ }),
{
    s.balances.insert(owner, amount);
    assert(s@.allowances =~= old(s)@.allowances);
}

/// The allowance that `owner` granted `spender`, 0 when none.
pub fn allowance(s: &TokenStorage, owner: AccountId, spender: AccountId) -> (a: i128)
    ensures
        a == s@.allowance(owner, spender),
{
    let key = pair_key(owner, spender);
    match s.allowances.get(&key) {
        Some(a) => *a,
        None => 0,
    }
}

/// Sets the allowance that `owner` grants `spender` to `amount`.
pub fn set_allowance(s: &mut TokenStorage, owner: AccountId, spender: AccountId, amount: i128)
    ensures
        final(s)@ == (TokenStorageState {
            allowances: old(s)@.allowances.insert((owner, spender), amount),
            ..old(s)@
        }),
{
    let key = pair_key(owner, spender);
    s.allowances.insert(key, amount);
    assert forall|pair: (AccountId, AccountId)|
        #![trigger s@.allowances.contains_key(pair)]
        s@.allowances.contains_key(pair) == old(s)@.allowances.insert((owner, spender), amount).contains_key(pair)
        && (s@.allowances.contains_key(pair) ==> s@.allowances[pair] == old(s)@.allowances.insert(
        (owner, spender),
        amount,
    )[pair]) by {
        lemma_pair_key_injective(pair.0, pair.1, owner, spender);
    }
    assert(s@.allowances =~= old(s)@.allowances.insert((owner, spender), amount));
}

/// The total supply, 0 before initialisation.
pub fn total_supply(s: &TokenStorage) -> (t: i128)
    ensures
        t == s@.supply(),
{
    match s.total_supply {
        Some(t) => t,
        None => 0,
    }
}

/// Stores the total supply.
pub fn set_total_supply(s: &mut TokenStorage, supply: i128)
    ensures
        final(s)@ == (TokenStorageState { total_supply: Some(supply), ..old(s)@ }),
{
    s.total_supply = Some(supply);
    assert(s@.allowances =~= old(s)@.allowances);
}

/// The stored administrator.
pub fn get_admin(s: &TokenStorage) -> (r: Result<AccountId, ContractError>)
    ensures
        r == (match s@.admin {
            Some(a) => Ok(a),
            None => Err(ContractError::AdminNotSet),
        }),
{
    match s.admin {
        Some(a) => Ok(a),
        None => Err(ContractError::AdminNotSet),
    }
}

/// Stores the administrator.
pub fn set_admin(s: &mut TokenStorage, admin: AccountId)
    ensures
        final(s)@ == (TokenStorageState { admin: Some(admin), ..old(s)@ }),
{
    s.admin = Some(admin);
    assert(s@.allowances =~= old(s)@.allowances);
}

/// Stores the contract version.
pub fn set_version(s: &mut TokenStorage, version: (u32, u32, u32))
    ensures
        final(s)@ == (TokenStorageState { version: Some(version), ..old(s)@ }),
{
    s.version = Some(version);
    assert(s@.allowances =~= old(s)@.allowances);
}

/// The stored contract version, `(0, 0, 0)` when none was stored.
pub fn get_version(s: &TokenStorage) -> (v: (u32, u32, u32))
    ensures
        v == s@.version_or_zero(),
{
    match s.version {
        Some(v) => v,
        None => (0, 0, 0),
    }
}

} // verus!
