//! Account identifiers, and the packing of two of them into one map key.

use vstd::prelude::*;

verus! {

/// Identifies an account (a user, an administrator or a contract). The host
/// keeps one identifier per address, so two identifiers are equal exactly
/// when they stand for the same address.
pub type AccountId = u64;

/// The key that stands for the ordered pair `(first, second)`.
pub open spec fn spec_pair_key(first: u64, second: u64) -> u128 {
    (first as int * 0x1_0000_0000_0000_0000int + second as int) as u128
}

/// Packs `(first, second)` into a single `u128`: `first` in the high
/// 64 bits, `second` in the low 64 bits.
pub fn pair_key(first: u64, second: u64) -> (key: u128)
    ensures
        key == spec_pair_key(first, second),
{
    proof {
        lemma_pair_key_in_range(first, second);
    }
    (first as u128) * 0x1_0000_0000_0000_0000u128 + (second as u128)
}

/// The packed value fits in a `u128`.
pub proof fn lemma_pair_key_in_range(first: u64, second: u64)
    ensures
        0 <= first as int * 0x1_0000_0000_0000_0000int + second as int <= u128::MAX,
{
    assert(first as int * 0x1_0000_0000_0000_0000int <= 0xffff_ffff_ffff_ffffint
        * 0x1_0000_0000_0000_0000int) by (nonlinear_arith)
        requires
            first <= 0xffff_ffff_ffff_ffffu64,
    ;
}

/// Distinct pairs have distinct keys.
pub proof fn lemma_pair_key_injective(a1: u64, b1: u64, a2: u64, b2: u64)
    ensures
        spec_pair_key(a1, b1) == spec_pair_key(a2, b2) <==> (a1 == a2 && b1 == b2),
{
    lemma_pair_key_in_range(a1, b1);
    lemma_pair_key_in_range(a2, b2);
    if spec_pair_key(a1, b1) == spec_pair_key(a2, b2) {
        let x1 = a1 as int;
        let x2 = a2 as int;
        let y1 = b1 as int;
        let y2 = b2 as int;
        assert(x1 * 0x1_0000_0000_0000_0000int + y1 == x2 * 0x1_0000_0000_0000_0000int + y2);
        assert(x1 == x2) by (nonlinear_arith)
            requires
                x1 * 0x1_0000_0000_0000_0000int + y1 == x2 * 0x1_0000_0000_0000_0000int + y2,
                0 <= y1 < 0x1_0000_0000_0000_0000int,
                0 <= y2 < 0x1_0000_0000_0000_0000int,
        ;
    }
}

} // verus!
