# votechain

A Verus-verified core for the VoteChain governance protocol on Stellar
Soroban: a token-weighted governance contract and the token whose balances
weigh the votes.

## Layout

- `src/accounts.rs` — account identifiers and the packing of two of them
  into one map key.
- `src/governance/` — proposals, votes, finalisation and administration:
  `types`, `storage` (what the contract stores, with its accessors),
  `events`, `contract` (the entry points and the transitions they are proved
  to perform), `laws` (invariant, lifecycle, one vote per voter, quorum
  enforcement, administrator-only calls) and `history` (the proposal count,
  the tallies and the vote records agree with the history of accepted
  calls).
- `src/token/` — balances, allowances, minting and burning, with the same
  structure; `laws` proves that the total supply equals the sum of all
  balances after the first initialisation and that every other call keeps
  it so. A second `initialize`, which nothing forbids, can break it.
- `tests/` — the scenarios of the contracts, run against the library.
- `app/` — the Soroban contracts: they authorise callers, read the ledger
  time and the voting token's balances, move storage entries in and out of
  the library, and publish its events.
