//! Events published by the token contract.

use vstd::prelude::*;
use crate::accounts::AccountId;
use crate::token::types::TokenEvent;

verus! {

/// Publishes `transfer` when `amount` tokens move from `from` to `to`.
pub fn transferred(log: &mut Vec<TokenEvent>, from: AccountId, to: AccountId, amount: i128)
    ensures
        final(log)@ == old(log)@.push(TokenEvent::Transferred { from, to, amount }),
{
    log.push(TokenEvent::Transferred { from, to, amount });
}

/// Publishes `mint` when `amount` tokens are minted to `to`.
pub fn minted(log: &mut Vec<TokenEvent>, to: AccountId, amount: i128)
    ensures
        final(log)@ == old(log)@.push(TokenEvent::Minted { to, amount }),
{
    log.push(TokenEvent::Minted { to, amount });
}

/// Publishes `burn` when `amount` tokens are burned from `from`.
pub fn burned(log: &mut Vec<TokenEvent>, from: AccountId, amount: i128)
    ensures
        final(log)@ == old(log)@.push(TokenEvent::Burned { from, amount }),
{
    log.push(TokenEvent::Burned { from, amount });
}

} // verus!
