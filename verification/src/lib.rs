//! Verified core of the VoteChain governance protocol: a token-weighted
//! governance contract and the fungible token whose balances weigh the votes.
//!
//! Each contract is modelled as a value that holds what the on-chain
//! contract keeps in storage, together with the log of events it has
//! published. Every entry point is a verified transition on that value;
//! the host (authorisation, ledger time, cross-contract calls, persistence)
//! supplies plain values to these transitions.

pub mod accounts;
pub mod governance;
pub mod token;
