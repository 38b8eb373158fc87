//! Constant-product pricing with a one percent fee.
//!
//! A balance of `n` minor units of an asset with `d` decimals stands for the
//! real quantity `n / 10^d`. With `R` and `P` the pool's real balances of the
//! received and the paid asset, `p` the real pay amount and `γ = 99/100`, a
//! swap releases `r = R·p·γ / (P + p·γ)`, truncated to minor units of the
//! received asset. The powers of ten cancel: in minor units the output is
//! `⌊99·R·p / (100·P + 99·p)⌋`, which is computed here exactly, in
//! integers, so that the result does not depend on a platform's
//! floating-point rounding.
use vstd::arithmetic::div_mod::{
    lemma_div_is_ordered_by_denominator,
    lemma_div_multiples_vanish,
    lemma_fundamental_div_mod,
    lemma_hoist_over_denominator,
    lemma_mod_bound,
};
use vstd::prelude::*;

use crate::error::SwapProgramError;

verus! {

/// Share of the pay amount that counts after the fee, in hundredths.
pub const FEE_KEPT_PERCENT: u64 = 99;

/// The output of a swap in minor units of the received asset, for pool
/// balances `big_r` (received asset) and `big_p` (paid asset) and a pay
/// amount `p`, all in minor units.
pub open spec fn swap_output(big_r: nat, big_p: nat, p: nat) -> nat
    recommends
        p > 0,
{
    (99 * big_r * p) / (100 * big_p + 99 * p)
}

/// The output of a swap never exceeds the pool's balance of the received
/// asset: before truncation, `99·R·p / (100·P + 99·p) ≤ R`, which holds for
/// the real quantities whatever the decimals, and so after it.
pub proof fn lemma_swap_output_bounded(big_r: nat, big_p: nat, p: nat)
    requires
        p > 0,
    ensures
        99 * big_r * p <= big_r * (100 * big_p + 99 * p),
        swap_output(big_r, big_p, p) <= big_r,
{
    assert(99 * big_r * p <= big_r * (100 * big_p + 99 * p)) by (nonlinear_arith);
    let q: int = 99 * p as int;
    let d: int = 100 * big_p as int + q;
    let x: int = q * big_r;
    assert(99 * big_r * p == x) by (nonlinear_arith)
        requires
            x == q * big_r,
            q == 99 * p,
    ;
    lemma_div_is_ordered_by_denominator(x, q, d);
    lemma_div_multiples_vanish(big_r as int, q);
    assert(swap_output(big_r, big_p, p) == x / d);
}

/// The amount of the received asset that paying `pay_amount` releases.
///
/// Fails with `InvalidSwapNotEnoughLiquidity` when the output would exceed
/// `pool_receive_balance`, which the formula never allows; the check guards
/// the pool should the rule ever change.
pub fn determine_swap_receive(pool_receive_balance: u64, pool_pay_balance: u64, pay_amount: u64) -> (r:
    Result<u64, SwapProgramError>)
    requires
        pay_amount > 0,
    ensures
        r == Ok::<u64, SwapProgramError>(
            swap_output(
                pool_receive_balance as nat,
                pool_pay_balance as nat,
                pay_amount as nat,
            ) as u64,
        ),
        swap_output(pool_receive_balance as nat, pool_pay_balance as nat, pay_amount as nat)
            <= pool_receive_balance,
{
    let big_r = pool_receive_balance as u128;
    let big_p = pool_pay_balance as u128;
    let p = pay_amount as u128;
    let kept = FEE_KEPT_PERCENT as u128;
    assert(big_r * p <= 0xffff_ffff_ffff_ffffu128 * 0xffff_ffff_ffff_ffffu128) by (nonlinear_arith)
        requires
            big_r <= 0xffff_ffff_ffff_ffffu128,
            p <= 0xffff_ffff_ffff_ffffu128,
    ;
    let product = big_r * p;
    let denominator = 100 * big_p + kept * p;
    let quotient = product / denominator;
    let remainder = product % denominator;
    proof {
        lemma_fundamental_div_mod(product as int, denominator as int);
        lemma_mod_bound(product as int, denominator as int);
        lemma_swap_output_bounded(big_r as nat, big_p as nat, p as nat);
        // quotient * denominator <= product, and denominator >= 99 * p
        assert(product == denominator * quotient + remainder);
        assert(quotient * denominator <= product) by (nonlinear_arith)
            requires
                product == denominator * quotient + remainder,
                remainder >= 0,
        ;
        assert(quotient * (99 * p) <= quotient * denominator) by (nonlinear_arith)
            requires
                denominator >= 99 * p,
        ;
        assert(99 * quotient <= big_r) by (nonlinear_arith)
            requires
                quotient * (99 * p) <= big_r * p,
                p > 0,
        ;
        assert(99 * remainder < 99 * denominator);
        lemma_hoist_over_denominator((99 * remainder) as int, (99 * quotient) as int, denominator as nat);
        assert(99 * big_r * p == 99 * remainder + (99 * quotient) * denominator) by (nonlinear_arith)
            requires
                product == big_r * p,
                product == denominator * quotient + remainder,
        ;
    }
    let receive = kept * quotient + (kept * remainder) / denominator;
    if receive > big_r {
        return Err(SwapProgramError::InvalidSwapNotEnoughLiquidity);
    }
    Ok(receive as u64)
}

} // verus!
