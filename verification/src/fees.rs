//! Fee-split arithmetic: a deposit is split into a treasury fee and a
//! fulfillment share, exactly, with the rounding remainder always
//! favoring the fulfillment share.

use vstd::prelude::*;
use vstd::arithmetic::div_mod::lemma_div_is_ordered;
use vstd::arithmetic::div_mod::lemma_div_multiples_vanish;
use vstd::arithmetic::mul::lemma_mul_upper_bound;
use vstd::arithmetic::mul::lemma_mul_is_commutative;
use crate::state::MAX_FEE_BPS;

verus! {

/// Basis points in the whole: a rate of `BPS_DENOMINATOR` would be
/// 100%.
pub const BPS_DENOMINATOR: u64 = 10000;

/// The treasury fee taken from a deposit: `floor(amount * fee_bps /
/// 10000)`.
pub open spec fn fee_of(amount: u64, fee_bps: u16) -> int {
    (amount * fee_bps) / (BPS_DENOMINATOR as int)
}

/// What is left for the fulfillment destination after the fee.
pub open spec fn fulfillment_of(amount: u64, fee_bps: u16) -> int {
    amount - fee_of(amount, fee_bps)
}

/// The fee never exceeds the deposit while the rate is within bounds.
pub proof fn lemma_fee_le_amount(amount: u64, fee_bps: u16)
    requires
        fee_bps <= MAX_FEE_BPS,
    ensures
        0 <= fee_of(amount, fee_bps) <= amount,
{
    let d = BPS_DENOMINATOR as int;
    lemma_mul_upper_bound(amount as int, amount as int, fee_bps as int, d);
    lemma_div_is_ordered(0, amount * fee_bps, d);
    lemma_div_is_ordered(amount * fee_bps, amount * d, d);
    lemma_mul_is_commutative(amount as int, d);
    lemma_div_multiples_vanish(amount as int, d);
}

/// Law: for every positive deposit and every fee rate within bounds,
/// the fee and the fulfillment share recombine to the deposit exactly;
/// no funds are created or destroyed by rounding.
pub proof fn lemma_fee_split_conserves(amount: u64, fee_bps: u16)
    requires
        amount > 0,
        fee_bps <= MAX_FEE_BPS,
    ensures
        fee_of(amount, fee_bps) + fulfillment_of(amount, fee_bps) == amount,
        0 <= fee_of(amount, fee_bps) <= amount,
        0 <= fulfillment_of(amount, fee_bps) <= amount,
{
    lemma_fee_le_amount(amount, fee_bps);
}

/// Split a deposit into its treasury fee and fulfillment share. The
/// intermediate product is taken at 128 bits, so the split is exact for
/// every unsigned 64-bit amount.
pub fn split_fee(amount: u64, fee_bps: u16) -> (r: (u64, u64))
    requires
        fee_bps <= MAX_FEE_BPS,
    ensures
        r.0 == fee_of(amount, fee_bps),
        r.1 == fulfillment_of(amount, fee_bps),
        r.0 + r.1 == amount,
{
    proof {
        lemma_mul_upper_bound(amount as int, u64::MAX as int, fee_bps as int, MAX_FEE_BPS as int);
        lemma_fee_le_amount(amount, fee_bps);
    }
    let product: u128 = (amount as u128) * (fee_bps as u128);
    let fee_wide: u128 = product / (BPS_DENOMINATOR as u128);
    let fee: u64 = fee_wide as u64;
    let fulfillment: u64 = amount - fee;
    (fee, fulfillment)
}

} // verus!
