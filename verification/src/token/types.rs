//! Data types of the token contract.

use vstd::prelude::*;
use crate::accounts::AccountId;

verus! {

/// Every way in which a token call is refused.
#[derive(Clone, Copy, Debug, PartialEq, Eq, Structural)]
pub enum ContractError {
    /// The administrator is not set.
    AdminNotSet,
    /// The caller is not the administrator.
    NotAdmin,
    /// A transfer or mint amount is not positive.
    InvalidAmount,
    /// The debited account holds fewer tokens than the amount.
    InsufficientBalance,
    /// The spender's allowance is below the amount.
    AllowanceExceeded,
}

impl ContractError {
    /// The error's number in the contract's interface.
    pub fn code(&self) -> (c: u32)
        ensures
            c == match *self {
                ContractError::AdminNotSet => 1u32,
                ContractError::NotAdmin => 2u32,
                ContractError::InvalidAmount => 3u32,
                ContractError::InsufficientBalance => 4u32,
                ContractError::AllowanceExceeded => 5u32,
            },
    {
        match self {
            ContractError::AdminNotSet => 1,
            ContractError::NotAdmin => 2,
            ContractError::InvalidAmount => 3,
            ContractError::InsufficientBalance => 4,
            ContractError::AllowanceExceeded => 5,
        }
    }
}

/// An event published by the token contract.
#[derive(Clone, Copy, Debug, PartialEq, Eq, Structural)]
pub enum TokenEvent {
    /// Topics `("transfer", from, to)`, data `amount`.
    Transferred { from: AccountId, to: AccountId, amount: i128 },
    /// Topics `("mint", to)`, data `amount`.
    Minted { to: AccountId, amount: i128 },
    /// Topics `("burn", from)`, data `amount`.
    Burned { from: AccountId, amount: i128 },
}

} // verus!
