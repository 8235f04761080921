//! The token contract: balances, allowances, minting and burning.
//!
//! Authorisation of the calling addresses is checked by the host; the
//! verified transitions below decide everything else.

use vstd::prelude::*;
use crate::accounts::AccountId;
use crate::token::events;
use crate::token::storage::{
    TokenStorage, TokenStorageState, allowance, amount_or_zero, balance_of, get_admin, get_version,
    set_admin, set_allowance, set_balance, set_total_supply, set_version, total_supply,
};
use crate::token::types::{ContractError, TokenEvent};
use crate::token::laws::{
    balance_sum, law_burn_keeps_supply, law_initialize_fresh, law_mint_keeps_supply,
    law_transfers_keep_supply, supply_matches,
};

verus! {

/// The mathematical value of a token contract: its storage and the events
/// it has published, oldest first.
pub struct TokenState {
    pub storage: TokenStorageState,
    pub events: Seq<TokenEvent>,
}

impl TokenState {
    /// The state of a freshly deployed contract.
    pub open spec fn fresh() -> TokenState {
        TokenState { storage: TokenStorageState::empty(), events: Seq::empty() }
    }
}

/// Whether `v` lies outside the range of `i128`.
pub open spec fn out_of_i128(v: int) -> bool {
    v < i128::MIN || v > i128::MAX
}

/// Outcome of `initialize`: `admin` becomes the administrator and holds the
/// whole `initial_supply`, which becomes the total supply.
pub open spec fn spec_initialize(s: TokenState, admin: AccountId, initial_supply: i128) -> TokenState {
    TokenState {
        storage: TokenStorageState {
            balances: s.storage.balances.insert(admin, initial_supply),
            total_supply: Some(initial_supply),
            admin: Some(admin),
            version: Some((1, 0, 0)),
            ..s.storage
        },
        events: s.events,
    }
}

/// The balances after `amount` is debited from `from`.
pub open spec fn debited(st: TokenStorageState, from: AccountId, amount: i128) -> Map<AccountId, i128> {
    st.balances.insert(from, (st.balance(from) - amount) as i128)
}

/// The balances after `amount` is debited from `from` and then credited to
/// `to` (the credit reads `to`'s balance after the debit).
pub open spec fn moved(st: TokenStorageState, from: AccountId, to: AccountId, amount: i128) -> Map<
    AccountId,
    i128,
> {
    let after = debited(st, from, amount);
    after.insert(to, (amount_or_zero(after, to) + amount) as i128)
}

/// Whether crediting `to` after the debit overflows an `i128`.
pub open spec fn credit_overflows(st: TokenStorageState, from: AccountId, to: AccountId, amount: i128) -> bool {
    out_of_i128(amount_or_zero(debited(st, from, amount), to) + amount)
}

/// The refusal of `transfer`, if any.
pub open spec fn transfer_error(st: TokenStorageState, from: AccountId, amount: i128) -> Option<ContractError> {
    if amount <= 0 {
        Some(ContractError::InvalidAmount)
    } else if st.balance(from) < amount {
        Some(ContractError::InsufficientBalance)
    } else {
        None
    }
}

/// The state after `amount` moves from `from` to `to` with `transfer`
/// published.
pub open spec fn transferred_state(s: TokenState, from: AccountId, to: AccountId, amount: i128) -> TokenState {
    TokenState {
        storage: TokenStorageState { balances: moved(s.storage, from, to, amount), ..s.storage },
        events: s.events.push(TokenEvent::Transferred { from, to, amount }),
    }
}

/// Outcome of `approve`: the allowance is overwritten.
pub open spec fn spec_approve(s: TokenState, owner: AccountId, spender: AccountId, amount: i128) -> TokenState {
    TokenState {
        storage: TokenStorageState {
            allowances: s.storage.allowances.insert((owner, spender), amount),
            ..s.storage
        },
        events: s.events,
    }
}

/// The refusal of `transfer_from`, if any: a non-positive amount first,
/// then an insufficient allowance, then an insufficient balance.
pub open spec fn transfer_from_error(
    st: TokenStorageState,
    spender: AccountId,
    from: AccountId,
    amount: i128,
) -> Option<ContractError> {
    if amount <= 0 {
        Some(ContractError::InvalidAmount)
    } else if st.allowance(from, spender) < amount {
        Some(ContractError::AllowanceExceeded)
    } else if st.balance(from) < amount {
        Some(ContractError::InsufficientBalance)
    } else {
        None
    }
}

/// Whether some step of an accepted `transfer_from` overflows an `i128`:
/// the reduced allowance, the debited balance or the credited balance.
pub open spec fn transfer_from_overflows(
    st: TokenStorageState,
    spender: AccountId,
    from: AccountId,
    to: AccountId,
    amount: i128,
) -> bool {
    &&& transfer_from_error(st, spender, from, amount) is None
    &&& {
        ||| out_of_i128(st.allowance(from, spender) - amount)
        ||| out_of_i128(st.balance(from) - amount)
        ||| credit_overflows(st, from, to, amount)
    }
}

/// The state after `spender` moves `amount` from `from` to `to`: the
/// allowance shrinks by `amount` and `transfer` is published.
pub open spec fn transferred_from_state(
    s: TokenState,
    spender: AccountId,
    from: AccountId,
    to: AccountId,
    amount: i128,
) -> TokenState {
    TokenState {
        storage: TokenStorageState {
            allowances: s.storage.allowances.insert(
                (from, spender),
                (s.storage.allowance(from, spender) - amount) as i128,
            ),
            balances: moved(s.storage, from, to, amount),
            ..s.storage
        },
        events: s.events.push(TokenEvent::Transferred { from, to, amount }),
    }
}

/// The refusal of an administrator-only call made by `caller`.
pub open spec fn admin_error(st: TokenStorageState, caller: AccountId) -> Option<ContractError> {
    match st.admin {
        None => Some(ContractError::AdminNotSet),
        Some(a) => if a != caller {
            Some(ContractError::NotAdmin)
        } else {
            None
        },
    }
}

/// The refusal of `mint`, if any.
pub open spec fn mint_error(st: TokenStorageState, caller: AccountId, amount: i128) -> Option<ContractError> {
    match admin_error(st, caller) {
        Some(e) => Some(e),
        None => if amount <= 0 {
            Some(ContractError::InvalidAmount)
        } else {
            None
        },
    }
}

/// Whether an accepted mint overflows the receiver's balance or the supply.
pub open spec fn mint_overflows(st: TokenStorageState, caller: AccountId, to: AccountId, amount: i128) -> bool {
    &&& mint_error(st, caller, amount) is None
    &&& (out_of_i128(st.balance(to) + amount) || out_of_i128(st.supply() + amount))
}

/// The state after `amount` is minted to `to`, with `mint` published.
pub open spec fn minted_state(s: TokenState, to: AccountId, amount: i128) -> TokenState {
    TokenState {
        storage: TokenStorageState {
            balances: s.storage.balances.insert(to, (s.storage.balance(to) + amount) as i128),
            total_supply: Some((s.storage.supply() + amount) as i128),
            ..s.storage
        },
        events: s.events.push(TokenEvent::Minted { to, amount }),
    }
}

/// The refusal of `burn`, if any: the caller's, then a non-positive
/// amount, then an insufficient balance.
pub open spec fn burn_error(st: TokenStorageState, caller: AccountId, from: AccountId, amount: i128) -> Option<
    ContractError,
> {
    match admin_error(st, caller) {
        Some(e) => Some(e),
        None => if amount <= 0 {
            Some(ContractError::InvalidAmount)
        } else if st.balance(from) < amount {
            Some(ContractError::InsufficientBalance)
        } else {
            None
        },
    }
}

/// Whether an accepted burn overflows the debited balance or the supply
/// (possible only with a supply that no longer matches the balances).
pub open spec fn burn_overflows(st: TokenStorageState, caller: AccountId, from: AccountId, amount: i128) -> bool {
    &&& burn_error(st, caller, from, amount) is None
    &&& (out_of_i128(st.balance(from) - amount) || out_of_i128(st.supply() - amount))
}

/// The state after `amount` is burned from `from`, with `burn` published.
pub open spec fn burned_state(s: TokenState, from: AccountId, amount: i128) -> TokenState {
    TokenState {
        storage: TokenStorageState {
            balances: s.storage.balances.insert(from, (s.storage.balance(from) - amount) as i128),
            total_supply: Some((s.storage.supply() - amount) as i128),
            ..s.storage
        },
        events: s.events.push(TokenEvent::Burned { from, amount }),
    }
}

/// One deployed token contract.
pub struct TokenContract {
    storage: TokenStorage,
    events: Vec<TokenEvent>,
}

impl View for TokenContract {
    type V = TokenState;

    closed spec fn view(&self) -> TokenState {
        TokenState { storage: self.storage@, events: self.events@ }
    }
}

impl TokenContract {
    /// A freshly deployed contract: empty storage, no events.
    pub fn new() -> (c: TokenContract)
        ensures
            c@ == TokenState::fresh(),
            supply_matches(c@.storage),
    {
        proof {
            let m = Map::<AccountId, i128>::empty();
            assert(m.dom() =~= Set::empty());
            assert(balance_sum(m) == 0);
        }
        TokenContract { storage: TokenStorage::new(), events: Vec::new() }
    }

    /// A contract whose storage holds what `storage` holds and whose event
    /// log is empty.
    pub fn from_storage(storage: TokenStorage) -> (c: TokenContract)
        ensures
            c@ == (TokenState { storage: storage@, events: Seq::empty() }),
    {
        TokenContract { storage, events: Vec::new() }
    }

    /// The contract's storage.
    pub fn storage(&self) -> (s: &TokenStorage)
        ensures
            s@ == self@.storage,
    {
        &self.storage
    }

    /// The events published so far, oldest first.
    pub fn events(&self) -> (e: &Vec<TokenEvent>)
        ensures
            e@ == self@.events,
    {
        &self.events
    }

    /// Initialises the token: `admin` becomes the administrator and receives
    /// the whole `initial_supply`, which becomes the total supply. Nothing
    /// guards against a second call: it replaces the administrator, the
    /// supply and the new administrator's balance, leaving every other
    /// balance as it was, so the supply then need no longer equal the sum of
    /// the balances. The accounting is consistent after initialising a token
    /// that stores no balance.
    pub fn initialize(&mut self, admin: AccountId, initial_supply: i128)
        ensures
            final(self)@ == spec_initialize(old(self)@, admin, initial_supply),
            old(self)@.storage.balances == Map::<AccountId, i128>::empty() ==> supply_matches(
                final(self)@.storage,
            ),
    {
        let ghost s0 = self@;
        set_admin(&mut self.storage, admin);
        set_balance(&mut self.storage, admin, initial_supply);
        set_total_supply(&mut self.storage, initial_supply);
        set_version(&mut self.storage, (1, 0, 0));
        proof {
            if s0.storage.balances == Map::<AccountId, i128>::empty() {
                law_initialize_fresh(admin, initial_supply);
                assert(self@.storage.balances == spec_initialize(TokenState::fresh(), admin, initial_supply).storage.balances);
            }
        }
    }

    /// The total supply in circulation.
    pub fn total_supply(&self) -> (t: i128)
        ensures
            t == self@.storage.supply(),
    {
        total_supply(&self.storage)
    }

    /// The balance of `owner`; 0 if it never held tokens.
    pub fn balance(&self, owner: AccountId) -> (b: i128)
        ensures
            b == self@.storage.balance(owner),
    {
        balance_of(&self.storage, owner)
    }

    /// The balance of `owner` (the same as [`TokenContract::balance`]).
    pub fn balance_of(&self, owner: AccountId) -> (b: i128)
        ensures
            b == self@.storage.balance(owner),
    {
        balance_of(&self.storage, owner)
    }

    /// Moves `amount` tokens from `from` to `to`.
    pub fn transfer(&mut self, from: AccountId, to: AccountId, amount: i128) -> (r: Result<(), ContractError>)
        requires
            transfer_error(old(self)@.storage, from, amount) is None ==> !credit_overflows(
                old(self)@.storage,
                from,
                to,
                amount,
            ),
        ensures
            match transfer_error(old(self)@.storage, from, amount) {
                Some(e) => r == Err::<(), ContractError>(e) && final(self)@ == old(self)@,
                None => r == Ok::<(), ContractError>(()) && final(self)@ == transferred_state(
                    old(self)@,
                    from,
                    to,
                    amount,
                ),
            },
            supply_matches(old(self)@.storage) ==> supply_matches(final(self)@.storage),
    {
        let ghost s0 = self@;
        if amount <= 0 {
            return Err(ContractError::InvalidAmount);
        }
        let b = balance_of(&self.storage, from);
        if b < amount {
            return Err(ContractError::InsufficientBalance);
        }
        set_balance(&mut self.storage, from, b - amount);
        let to_balance = balance_of(&self.storage, to);
        set_balance(&mut self.storage, to, to_balance + amount);
        events::transferred(&mut self.events, from, to, amount);
        proof {
            if supply_matches(s0.storage) {
                law_transfers_keep_supply(s0, from, from, to, amount);
            }
        }
        Ok(())
    }

    /// Lets `spender` transfer up to `amount` of `owner`'s tokens, replacing
    /// any earlier allowance.
    pub fn approve(&mut self, owner: AccountId, spender: AccountId, amount: i128)
        ensures
            final(self)@ == spec_approve(old(self)@, owner, spender, amount),
            supply_matches(old(self)@.storage) ==> supply_matches(final(self)@.storage),
    {
        let ghost s0 = self@;
        set_allowance(&mut self.storage, owner, spender, amount);
        proof {
            if supply_matches(s0.storage) {
                law_transfers_keep_supply(s0, spender, owner, owner, amount);
            }
        }
    }

    /// `spender` moves `amount` of `from`'s tokens to `to` within its
    /// allowance, which shrinks by `amount`; the amount must be positive.
    pub fn transfer_from(
        &mut self,
        spender: AccountId,
        from: AccountId,
        to: AccountId,
        amount: i128,
    ) -> (r: Result<(), ContractError>)
        requires
            !transfer_from_overflows(old(self)@.storage, spender, from, to, amount),
        ensures
            match transfer_from_error(old(self)@.storage, spender, from, amount) {
                Some(e) => r == Err::<(), ContractError>(e) && final(self)@ == old(self)@,
                None => r == Ok::<(), ContractError>(()) && final(self)@ == transferred_from_state(
                    old(self)@,
                    spender,
                    from,
                    to,
                    amount,
                ),
            },
            supply_matches(old(self)@.storage) ==> supply_matches(final(self)@.storage),
    {
        let ghost s0 = self@;
        if amount <= 0 {
            return Err(ContractError::InvalidAmount);
        }
        let allowed = allowance(&self.storage, from, spender);
        if allowed < amount {
            return Err(ContractError::AllowanceExceeded);
        }
        let b = balance_of(&self.storage, from);
        if b < amount {
            return Err(ContractError::InsufficientBalance);
        }
        set_allowance(&mut self.storage, from, spender, allowed - amount);
        set_balance(&mut self.storage, from, b - amount);
        let to_balance = balance_of(&self.storage, to);
        set_balance(&mut self.storage, to, to_balance + amount);
        events::transferred(&mut self.events, from, to, amount);
        proof {
            if supply_matches(s0.storage) {
                law_transfers_keep_supply(s0, spender, from, to, amount);
            }
        }
        Ok(())
    }

    /// Mints `amount` new tokens to `to`. Only the administrator may.
    pub fn mint(&mut self, admin: AccountId, to: AccountId, amount: i128) -> (r: Result<(), ContractError>)
        requires
            !mint_overflows(old(self)@.storage, admin, to, amount),
        ensures
            match mint_error(old(self)@.storage, admin, amount) {
                Some(e) => r == Err::<(), ContractError>(e) && final(self)@ == old(self)@,
                None => r == Ok::<(), ContractError>(()) && final(self)@ == minted_state(
                    old(self)@,
                    to,
                    amount,
                ),
            },
            supply_matches(old(self)@.storage) ==> supply_matches(final(self)@.storage),
    {
        let ghost s0 = self@;
        match get_admin(&self.storage) {
            Err(e) => return Err(e),
            Ok(a) => if a != admin {
                return Err(ContractError::NotAdmin);
            },
        }
        if amount <= 0 {
            return Err(ContractError::InvalidAmount);
        }
        let b = balance_of(&self.storage, to);
        set_balance(&mut self.storage, to, b + amount);
        let supply = total_supply(&self.storage);
        set_total_supply(&mut self.storage, supply + amount);
        events::minted(&mut self.events, to, amount);
        proof {
            if supply_matches(s0.storage) {
                law_mint_keeps_supply(s0, admin, to, amount);
            }
        }
        Ok(())
    }

    /// Burns `amount` of `from`'s tokens; the amount must be positive. Only
    /// the administrator may.
    pub fn burn(&mut self, admin: AccountId, from: AccountId, amount: i128) -> (r: Result<(), ContractError>)
        requires
            !burn_overflows(old(self)@.storage, admin, from, amount),
        ensures
            match burn_error(old(self)@.storage, admin, from, amount) {
                Some(e) => r == Err::<(), ContractError>(e) && final(self)@ == old(self)@,
                None => r == Ok::<(), ContractError>(()) && final(self)@ == burned_state(
                    old(self)@,
                    from,
                    amount,
                ),
            },
            supply_matches(old(self)@.storage) ==> supply_matches(final(self)@.storage),
    {
        let ghost s0 = self@;
        match get_admin(&self.storage) {
            Err(e) => return Err(e),
            Ok(a) => if a != admin {
                return Err(ContractError::NotAdmin);
            },
        }
        if amount <= 0 {
            return Err(ContractError::InvalidAmount);
        }
        let b = balance_of(&self.storage, from);
        if b < amount {
            return Err(ContractError::InsufficientBalance);
        }
        set_balance(&mut self.storage, from, b - amount);
        let supply = total_supply(&self.storage);
        set_total_supply(&mut self.storage, supply - amount);
        events::burned(&mut self.events, from, amount);
        proof {
            if supply_matches(s0.storage) {
                law_burn_keeps_supply(s0, admin, from, amount);
            }
        }
        Ok(())
    }

    /// The balance of `to` after `amount` is debited from `from`.
    fn balance_after_debit(&self, from: AccountId, to: AccountId, amount: i128) -> (r: Option<i128>)
        ensures
            r == (if out_of_i128(self@.storage.balance(from) - amount) {
                None
            } else {
                Some(amount_or_zero(debited(self@.storage, from, amount), to))
            }),
    {
        let b = balance_of(&self.storage, from);
        match b.checked_sub(amount) {
            None => None,
            Some(rest) => if to == from {
                Some(rest)
            } else {
                Some(balance_of(&self.storage, to))
            },
        }
    }

    /// Whether `transfer` would overflow an `i128`: the inputs that its
    /// `requires` leaves out, on which the contract fails.
    pub fn transfer_overflows(&self, from: AccountId, to: AccountId, amount: i128) -> (r: bool)
        ensures
            r == (transfer_error(self@.storage, from, amount) is None && credit_overflows(
                self@.storage,
                from,
                to,
                amount,
            )),
    {
        if amount <= 0 || balance_of(&self.storage, from) < amount {
            return false;
        }
        match self.balance_after_debit(from, to, amount) {
            None => true,
            Some(to_balance) => to_balance.checked_add(amount).is_none(),
        }
    }

    /// Whether `transfer_from` would overflow an `i128`: the inputs that its
    /// `requires` leaves out, on which the contract fails.
    pub fn transfer_from_overflows(
        &self,
        spender: AccountId,
        from: AccountId,
        to: AccountId,
        amount: i128,
    ) -> (r: bool)
        ensures
            r == transfer_from_overflows(self@.storage, spender, from, to, amount),
    {
        let allowed = allowance(&self.storage, from, spender);
        if amount <= 0 || allowed < amount || balance_of(&self.storage, from) < amount {
            return false;
        }
        if allowed.checked_sub(amount).is_none() {
            return true;
        }
        match self.balance_after_debit(from, to, amount) {
            None => true,
            Some(to_balance) => to_balance.checked_add(amount).is_none(),
        }
    }

    /// Whether `mint` would overflow an `i128`: the inputs that its
    /// `requires` leaves out, on which the contract fails.
    pub fn mint_overflows(&self, admin: AccountId, to: AccountId, amount: i128) -> (r: bool)
        ensures
            r == mint_overflows(self@.storage, admin, to, amount),
    {
        match get_admin(&self.storage) {
            Err(_) => return false,
            Ok(a) => if a != admin {
                return false;
            },
        }
        if amount <= 0 {
            return false;
        }
        balance_of(&self.storage, to).checked_add(amount).is_none() || total_supply(
            &self.storage,
        ).checked_add(amount).is_none()
    }

    /// Whether `burn` would overflow an `i128`: the inputs that its
    /// `requires` leaves out, on which the contract fails.
    pub fn burn_overflows(&self, admin: AccountId, from: AccountId, amount: i128) -> (r: bool)
        ensures
            r == burn_overflows(self@.storage, admin, from, amount),
    {
        match get_admin(&self.storage) {
            Err(_) => return false,
            Ok(a) => if a != admin {
                return false;
            },
        }
        let b = balance_of(&self.storage, from);
        if amount <= 0 || b < amount {
            return false;
        }
        b.checked_sub(amount).is_none() || total_supply(&self.storage).checked_sub(amount).is_none()
    }

    /// The contract version as `(major, minor, patch)`; `(0, 0, 0)` before
    /// initialisation.
    pub fn get_version(&self) -> (v: (u32, u32, u32))
        ensures
            v == self@.storage.version_or_zero(),
    {
        get_version(&self.storage)
    }
}

} // verus!
