//! Laws of the token contract, stated over the transitions that its entry
//! points are proved to perform. The central one: the total supply equals
//! the sum of all balances once a token with no stored balance is
//! initialised, and transfers, approvals, mints and burns keep it so.
//! `initialize` has no guard against a second call, and a second call can
//! break it: after `initialize(a, 100)` and `transfer(a, b, 40)`, another
//! `initialize(a, 100)` leaves a supply of 100 and balances summing to 140.

use vstd::prelude::*;
use crate::accounts::AccountId;
use crate::token::contract::{
    TokenState, admin_error, burn_error, burn_overflows, burned_state, credit_overflows,
    debited, mint_error, mint_overflows, minted_state, spec_approve, spec_initialize,
    transfer_error, transfer_from_error, transfer_from_overflows, transferred_from_state,
    transferred_state,
};
use crate::token::storage::{TokenStorageState, amount_or_zero};
use crate::token::types::ContractError;

verus! {

/// The sum of the amounts stored under `keys` in `m`.
pub open spec fn sum_over(m: Map<AccountId, i128>, keys: Set<AccountId>) -> int
    decreases keys.len(),
{
    if keys.finite() && keys.len() > 0 {
        let k = keys.choose();
        amount_or_zero(m, k) + sum_over(m, keys.remove(k))
    } else {
        0
    }
}

/// The sum of all balances.
pub open spec fn balance_sum(balances: Map<AccountId, i128>) -> int {
    sum_over(balances, balances.dom())
}

/// The token's accounting is consistent: finitely many balances are
/// stored, and the total supply equals their sum.
pub open spec fn supply_matches(st: TokenStorageState) -> bool {
    &&& st.balances.dom().finite()
    &&& st.supply() == balance_sum(st.balances)
}

/// Taking one key out of a sum.
pub proof fn lemma_sum_remove(m: Map<AccountId, i128>, keys: Set<AccountId>, k: AccountId)
    requires
        keys.finite(),
        keys.contains(k),
    ensures
        sum_over(m, keys) == amount_or_zero(m, k) + sum_over(m, keys.remove(k)),
    decreases keys.len(),
{
    let c = keys.choose();
    if c != k {
        lemma_sum_remove(m, keys.remove(c), k);
        lemma_sum_remove(m, keys.remove(k), c);
        assert(keys.remove(c).remove(k) =~= keys.remove(k).remove(c));
    }
}

/// Two maps that agree on `keys` have the same sum over `keys`.
pub proof fn lemma_sum_agree(m1: Map<AccountId, i128>, m2: Map<AccountId, i128>, keys: Set<AccountId>)
    requires
        keys.finite(),
        forall|k: AccountId| keys.contains(k) ==> amount_or_zero(m1, k) == amount_or_zero(m2, k),
    ensures
        sum_over(m1, keys) == sum_over(m2, keys),
    decreases keys.len(),
{
    if keys.len() > 0 {
        let c = keys.choose();
        lemma_sum_agree(m1, m2, keys.remove(c));
    }
}

/// Writing `v` under `k` changes the sum of all balances by `v` minus what
/// was stored there.
pub proof fn lemma_balance_sum_insert(m: Map<AccountId, i128>, k: AccountId, v: i128)
    requires
        m.dom().finite(),
    ensures
        m.insert(k, v).dom().finite(),
        balance_sum(m.insert(k, v)) == balance_sum(m) - amount_or_zero(m, k) + v,
{
    let m2 = m.insert(k, v);
    assert(m2.dom() =~= m.dom().insert(k));
    lemma_sum_remove(m2, m2.dom(), k);
    assert(m2.dom().remove(k) =~= m.dom().remove(k));
    lemma_sum_agree(m2, m, m.dom().remove(k));
    if m.dom().contains(k) {
        lemma_sum_remove(m, m.dom(), k);
    } else {
        assert(m.dom().remove(k) =~= m.dom());
    }
}

/// A freshly deployed token, once initialised, has consistent accounting.
pub proof fn law_initialize_fresh(admin: AccountId, initial_supply: i128)
    ensures
        supply_matches(spec_initialize(TokenState::fresh(), admin, initial_supply).storage),
{
    let m: Map<AccountId, i128> = Map::empty();
    assert(m.dom() =~= Set::empty());
    lemma_balance_sum_insert(m, admin, initial_supply);
}

/// A transfer moves exactly `amount` from `from` to `to`, leaves every other
/// balance and the total supply as they were, and so keeps the sum of all
/// balances.
pub proof fn law_transfer_conserves(s: TokenState, from: AccountId, to: AccountId, amount: i128)
    requires
        s.storage.balances.dom().finite(),
        transfer_error(s.storage, from, amount) is None,
        !credit_overflows(s.storage, from, to, amount),
    ensures
        ({
            let post = transferred_state(s, from, to, amount).storage;
            &&& post.supply() == s.storage.supply()
            &&& post.balances.dom().finite()
            &&& balance_sum(post.balances) == balance_sum(s.storage.balances)
            &&& from != to ==> post.balance(from) == s.storage.balance(from) - amount
                && post.balance(to) == s.storage.balance(to) + amount
            &&& from == to ==> post.balance(from) == s.storage.balance(from)
            &&& forall|other: AccountId|
                other != from && other != to ==> #[trigger] post.balance(other) == s.storage.balance(
                    other,
                )
        }),
{
    lemma_move_conserves(s.storage, from, to, amount);
}

/// A transfer that `spender` makes on `from`'s behalf keeps the sum of all
/// balances and the total supply, and lowers the allowance by `amount`.
pub proof fn law_transfer_from_conserves(
    s: TokenState,
    spender: AccountId,
    from: AccountId,
    to: AccountId,
    amount: i128,
)
    requires
        s.storage.balances.dom().finite(),
        transfer_from_error(s.storage, spender, from, amount) is None,
        !transfer_from_overflows(s.storage, spender, from, to, amount),
    ensures
        ({
            let post = transferred_from_state(s, spender, from, to, amount).storage;
            &&& post.supply() == s.storage.supply()
            &&& post.balances.dom().finite()
            &&& balance_sum(post.balances) == balance_sum(s.storage.balances)
            &&& post.allowance(from, spender) == s.storage.allowance(from, spender) - amount
        }),
{
    lemma_move_conserves(s.storage, from, to, amount);
}

/// Debiting then crediting the same amount keeps the sum of all balances.
proof fn lemma_move_conserves(st: TokenStorageState, from: AccountId, to: AccountId, amount: i128)
    requires
        st.balances.dom().finite(),
        !(st.balance(from) - amount < i128::MIN || st.balance(from) - amount > i128::MAX),
        !credit_overflows(st, from, to, amount),
    ensures
        ({
            let after = debited(st, from, amount);
            let post = after.insert(to, (amount_or_zero(after, to) + amount) as i128);
            &&& post.dom().finite()
            &&& balance_sum(post) == balance_sum(st.balances)
        }),
{
    let after = debited(st, from, amount);
    lemma_balance_sum_insert(st.balances, from, (st.balance(from) - amount) as i128);
    lemma_balance_sum_insert(after, to, (amount_or_zero(after, to) + amount) as i128);
}

/// Minting adds `amount` both to the receiver's balance and to the total
/// supply, so consistent accounting stays consistent.
pub proof fn law_mint_keeps_supply(s: TokenState, admin: AccountId, to: AccountId, amount: i128)
    requires
        supply_matches(s.storage),
        mint_error(s.storage, admin, amount) is None,
        !mint_overflows(s.storage, admin, to, amount),
    ensures
        supply_matches(minted_state(s, to, amount).storage),
        minted_state(s, to, amount).storage.supply() == s.storage.supply() + amount,
{
    lemma_balance_sum_insert(
        s.storage.balances,
        to,
        (s.storage.balance(to) + amount) as i128,
    );
}

/// Burning removes `amount` both from the holder's balance and from the
/// total supply, so consistent accounting stays consistent.
pub proof fn law_burn_keeps_supply(s: TokenState, admin: AccountId, from: AccountId, amount: i128)
    requires
        supply_matches(s.storage),
        burn_error(s.storage, admin, from, amount) is None,
        !burn_overflows(s.storage, admin, from, amount),
    ensures
        supply_matches(burned_state(s, from, amount).storage),
        burned_state(s, from, amount).storage.supply() == s.storage.supply() - amount,
{
    lemma_balance_sum_insert(
        s.storage.balances,
        from,
        (s.storage.balance(from) - amount) as i128,
    );
}

/// Every accepted transfer keeps consistent accounting consistent, and so
/// does an approval, which touches no balance.
pub proof fn law_transfers_keep_supply(
    s: TokenState,
    spender: AccountId,
    from: AccountId,
    to: AccountId,
    amount: i128,
)
    requires
        supply_matches(s.storage),
    ensures
        transfer_error(s.storage, from, amount) is None && !credit_overflows(s.storage, from, to, amount)
            ==> supply_matches(transferred_state(s, from, to, amount).storage),
        transfer_from_error(s.storage, spender, from, amount) is None && !transfer_from_overflows(
            s.storage,
            spender,
            from,
            to,
            amount,
        ) ==> supply_matches(transferred_from_state(s, spender, from, to, amount).storage),
        supply_matches(spec_approve(s, from, spender, amount).storage),
{
    if transfer_error(s.storage, from, amount) is None && !credit_overflows(s.storage, from, to, amount) {
        law_transfer_conserves(s, from, to, amount);
    }
    if transfer_from_error(s.storage, spender, from, amount) is None && !transfer_from_overflows(
        s.storage,
        spender,
        from,
        to,
        amount,
    ) {
        law_transfer_from_conserves(s, spender, from, to, amount);
    }
}

/// Only the administrator may mint or burn: any other caller of an
/// initialised token is refused with `NotAdmin`.
pub proof fn law_admin_only(s: TokenState, caller: AccountId, account: AccountId, amount: i128)
    requires
        s.storage.admin is Some,
        s.storage.admin != Some(caller),
    ensures
        admin_error(s.storage, caller) == Some(ContractError::NotAdmin),
        mint_error(s.storage, caller, amount) == Some(ContractError::NotAdmin),
        burn_error(s.storage, caller, account, amount) == Some(ContractError::NotAdmin),
{
}

} // verus!
