//! What each token entry point does, stated account by account over the
//! stored values: these laws pin the transitions named in the entry points'
//! contracts to the rules of the token, independently of how those
//! transitions are written.

use vstd::prelude::*;
use crate::accounts::AccountId;
use crate::token::contract::{
    TokenState, burn_error, burn_overflows, burned_state, credit_overflows, mint_error, mint_overflows, minted_state, spec_approve,
    spec_initialize, transfer_error, transfer_from_error, transfer_from_overflows,
    transferred_from_state, transferred_state,
};
use crate::token::types::{ContractError, TokenEvent};

verus! {

/// Approval sets the allowance of `(owner, spender)` to `amount` and changes
/// no other allowance (in particular not that of `(spender, owner)`), no
/// balance, the supply, the administrator or the events.
pub proof fn law_approve_sets_one_allowance(
    s: TokenState,
    owner: AccountId,
    spender: AccountId,
    amount: i128,
)
    ensures
        ({
            let post = spec_approve(s, owner, spender, amount);
            &&& post.storage.allowance(owner, spender) == amount
            &&& forall|o: AccountId, sp: AccountId|
                (o, sp) != (owner, spender) ==> #[trigger] post.storage.allowance(o, sp)
                    == s.storage.allowance(o, sp)
            &&& post.storage.balances == s.storage.balances
            &&& post.storage.total_supply == s.storage.total_supply
            &&& post.storage.admin == s.storage.admin
            &&& post.events == s.events
        }),
{
}

/// Initialisation makes `admin` the administrator holding `initial_supply`,
/// which becomes the supply; every other balance and every allowance stay.
pub proof fn law_initialize_sets_admin_and_supply(s: TokenState, admin: AccountId, initial_supply: i128)
    ensures
        ({
            let post = spec_initialize(s, admin, initial_supply);
            &&& post.storage.admin == Some(admin)
            &&& post.storage.balance(admin) == initial_supply
            &&& post.storage.supply() == initial_supply
            &&& forall|a: AccountId| a != admin ==> #[trigger] post.storage.balance(a)
                == s.storage.balance(a)
            &&& post.storage.allowances == s.storage.allowances
            &&& post.storage.version == Some((1u32, 0u32, 0u32))
            &&& post.events == s.events
        }),
{
}

/// The refusals of a transfer: a non-positive amount, then a balance below
/// the amount; otherwise it is accepted.
pub proof fn law_transfer_refusals(s: TokenState, from: AccountId, amount: i128)
    ensures
        amount <= 0 ==> transfer_error(s.storage, from, amount) == Some(ContractError::InvalidAmount),
        amount > 0 && s.storage.balance(from) < amount ==> transfer_error(s.storage, from, amount)
            == Some(ContractError::InsufficientBalance),
        amount > 0 && s.storage.balance(from) >= amount ==> transfer_error(s.storage, from, amount)
            is None,
{
}

/// An accepted transfer publishes one `transfer` event and leaves the
/// supply, the allowances and the administrator as they were.
pub proof fn law_transfer_event(s: TokenState, from: AccountId, to: AccountId, amount: i128)
    requires
        transfer_error(s.storage, from, amount) is None,
        !credit_overflows(s.storage, from, to, amount),
    ensures
        ({
            let post = transferred_state(s, from, to, amount);
            &&& post.events == s.events.push(TokenEvent::Transferred { from, to, amount })
            &&& post.storage.total_supply == s.storage.total_supply
            &&& post.storage.allowances == s.storage.allowances
            &&& post.storage.admin == s.storage.admin
        }),
{
}

/// The refusals of `transfer_from`: a non-positive amount, then an
/// allowance below the amount, then a balance below the amount. An
/// accepted one lowers the spender's allowance over `from` by `amount` and
/// no other allowance, moves exactly `amount` from `from` to `to` (nothing
/// when they are the same account), leaves every other balance and the
/// supply, and publishes one `transfer` event.
pub proof fn law_transfer_from_moves_within_allowance(
    s: TokenState,
    spender: AccountId,
    from: AccountId,
    to: AccountId,
    amount: i128,
)
    ensures
        amount <= 0 ==> transfer_from_error(s.storage, spender, from, amount) == Some(
            ContractError::InvalidAmount,
        ),
        amount > 0 && s.storage.allowance(from, spender) < amount ==> transfer_from_error(
            s.storage,
            spender,
            from,
            amount,
        ) == Some(ContractError::AllowanceExceeded),
        amount > 0 && s.storage.allowance(from, spender) >= amount && s.storage.balance(from)
            < amount ==> transfer_from_error(s.storage, spender, from, amount) == Some(
            ContractError::InsufficientBalance,
        ),
        transfer_from_error(s.storage, spender, from, amount) is None ==> amount > 0
            && s.storage.allowance(from, spender) >= amount && s.storage.balance(from) >= amount,
        transfer_from_error(s.storage, spender, from, amount) is None && !transfer_from_overflows(
            s.storage,
            spender,
            from,
            to,
            amount,
        ) ==> ({
            let post = transferred_from_state(s, spender, from, to, amount);
            &&& post.storage.allowance(from, spender) == s.storage.allowance(from, spender) - amount
            &&& forall|o: AccountId, sp: AccountId|
                (o, sp) != (from, spender) ==> #[trigger] post.storage.allowance(o, sp)
                    == s.storage.allowance(o, sp)
            &&& from != to ==> post.storage.balance(from) == s.storage.balance(from) - amount
                && post.storage.balance(to) == s.storage.balance(to) + amount
            &&& from == to ==> post.storage.balance(from) == s.storage.balance(from)
            &&& forall|a: AccountId|
                a != from && a != to ==> #[trigger] post.storage.balance(a) == s.storage.balance(a)
            &&& post.storage.supply() == s.storage.supply()
            &&& post.events == s.events.push(TokenEvent::Transferred { from, to, amount })
        }),
{
}

/// Minting: refused unless the caller is the stored administrator and the
/// amount is positive; an accepted mint adds `amount` to the receiver's
/// balance and to the supply, changes no other balance, and publishes one
/// `mint` event.
pub proof fn law_mint_adds(s: TokenState, caller: AccountId, to: AccountId, amount: i128)
    ensures
        s.storage.admin is None ==> mint_error(s.storage, caller, amount) == Some(
            ContractError::AdminNotSet,
        ),
        s.storage.admin == Some(caller) && amount <= 0 ==> mint_error(s.storage, caller, amount)
            == Some(ContractError::InvalidAmount),
        mint_error(s.storage, caller, amount) is None <==> (s.storage.admin == Some(caller) && amount
            > 0),
        mint_error(s.storage, caller, amount) is None && !mint_overflows(s.storage, caller, to, amount)
            ==> ({
            let post = minted_state(s, to, amount);
            &&& post.storage.balance(to) == s.storage.balance(to) + amount
            &&& post.storage.supply() == s.storage.supply() + amount
            &&& forall|a: AccountId| a != to ==> #[trigger] post.storage.balance(a)
                == s.storage.balance(a)
            &&& post.storage.allowances == s.storage.allowances
            &&& post.events == s.events.push(TokenEvent::Minted { to, amount })
        }),
{
}

/// Burning: refused unless the caller is the stored administrator, then
/// unless the amount is positive, then unless the holder has the amount; an
/// accepted burn takes `amount` from the holder's balance and from the
/// supply, changes no other balance, and publishes one `burn` event.
pub proof fn law_burn_removes(s: TokenState, caller: AccountId, from: AccountId, amount: i128)
    ensures
        s.storage.admin is None ==> burn_error(s.storage, caller, from, amount) == Some(
            ContractError::AdminNotSet,
        ),
        s.storage.admin == Some(caller) && amount <= 0 ==> burn_error(s.storage, caller, from, amount)
            == Some(ContractError::InvalidAmount),
        s.storage.admin == Some(caller) && amount > 0 && s.storage.balance(from) < amount
            ==> burn_error(s.storage, caller, from, amount) == Some(ContractError::InsufficientBalance),
        burn_error(s.storage, caller, from, amount) is None <==> (s.storage.admin == Some(caller)
            && amount > 0 && s.storage.balance(from) >= amount),
        burn_error(s.storage, caller, from, amount) is None && !burn_overflows(
            s.storage,
            caller,
            from,
            amount,
        ) ==> ({
            let post = burned_state(s, from, amount);
            &&& post.storage.balance(from) == s.storage.balance(from) - amount
            &&& forall|a: AccountId| a != from ==> #[trigger] post.storage.balance(a)
                == s.storage.balance(a)
            &&& post.storage.supply() == s.storage.supply() - amount
            &&& post.storage.allowances == s.storage.allowances
            &&& post.events == s.events.push(TokenEvent::Burned { from, amount })
        }),
{
}

} // verus!
