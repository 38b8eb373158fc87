//! The program's entry points over the pool and the stake records.
use vstd::prelude::*;

use crate::error::SwapProgramError;
use crate::key::Pubkey;
use crate::ledger::{Holder, Transfer};
use crate::pool::{registry_add, LiquidityPool, SwapPlan};
use crate::pricing::swap_output;
use crate::units::{pow10, scale_amount, scale_fits};

verus! {

/// Creates the pool, with an empty registry, at the address of nonce `bump`.
pub fn create_pool(bump: u8) -> (r: LiquidityPool)
    ensures
        r.assets@ == Seq::<Pubkey>::empty(),
        r.bump == bump,
        r.wf(),
{
    LiquidityPool::new(bump)
}

/// Provides liquidity: registers `mint` if it is new, which needs the
/// account's storage grown (`storage_grown`), and moves `amount` of it from
/// the user into the pool.
pub fn fund_pool(pool: &mut LiquidityPool, mint: Pubkey, amount: u64, storage_grown: bool) -> (r:
    Result<Transfer, SwapProgramError>)
    requires
        old(pool).wf(),
    ensures
        final(pool).wf(),
        final(pool).bump == old(pool).bump,
        r is Ok <==> (old(pool).registered(mint) || storage_grown),
        r matches Ok(t) ==> t.is(mint, Holder::User, Holder::Pool, amount as nat)
            && final(pool).assets@ == registry_add(old(pool).assets@, mint),
        r is Err ==> r == Err::<Transfer, SwapProgramError>(
            SwapProgramError::InvalidAssetRegistration,
        ) && final(pool).assets@ == old(pool).assets@,
{
    pool.fund(mint, amount, storage_grown)
}

/// Why `swap` refuses, if it does: matching assets first, then a zero
/// amount, then an unregistered asset, then an output that rounds to zero.
pub open spec fn swap_error(
    pool: LiquidityPool,
    receive_mint: Pubkey,
    pay_mint: Pubkey,
    pool_receive_balance: nat,
    pool_pay_balance: nat,
    amount_to_swap: nat,
) -> Option<SwapProgramError> {
    if receive_mint == pay_mint {
        Some(SwapProgramError::InvalidSwapMatchingAssets)
    } else if amount_to_swap == 0 {
        Some(SwapProgramError::InvalidSwapZeroAmount)
    } else {
        pool.process_swap_error(
            receive_mint,
            pay_mint,
            pool_receive_balance,
            pool_pay_balance,
            amount_to_swap,
        )
    }
}

/// Swapping an asset for itself is always refused as matching assets, and
/// swapping a zero amount of another asset always as a zero amount.
pub proof fn lemma_swap_refusals(
    pool: LiquidityPool,
    x: Pubkey,
    y: Pubkey,
    pool_receive_balance: nat,
    pool_pay_balance: nat,
    amount_to_swap: nat,
)
    ensures
        swap_error(pool, x, x, pool_receive_balance, pool_pay_balance, amount_to_swap) == Some(
            SwapProgramError::InvalidSwapMatchingAssets,
        ),
        x != y ==> swap_error(pool, x, y, pool_receive_balance, pool_pay_balance, 0) == Some(
            SwapProgramError::InvalidSwapZeroAmount,
        ),
{
}

/// Swaps `amount_to_swap` of `pay_mint` for `receive_mint`, priced against
/// the pool's balances of the two assets. On success the plan pays the amount
/// into the pool and releases `swap_output` of the received asset, never more
/// than the pool holds.
pub fn swap(
    pool: &LiquidityPool,
    receive_mint: Pubkey,
    pay_mint: Pubkey,
    pool_receive_balance: u64,
    pool_pay_balance: u64,
    amount_to_swap: u64,
) -> (r: Result<SwapPlan, SwapProgramError>)
    ensures
        match r {
            Ok(plan) => {
                &&& swap_error(
                    *pool,
                    receive_mint,
                    pay_mint,
                    pool_receive_balance as nat,
                    pool_pay_balance as nat,
                    amount_to_swap as nat,
                ) is None
                &&& plan.pay.is(pay_mint, Holder::User, Holder::Pool, amount_to_swap as nat)
                &&& plan.receive.is(
                    receive_mint,
                    Holder::Pool,
                    Holder::User,
                    swap_output(
                        pool_receive_balance as nat,
                        pool_pay_balance as nat,
                        amount_to_swap as nat,
                    ),
                )
                &&& plan.receive.amount <= pool_receive_balance
            },
            Err(e) => swap_error(
                *pool,
                receive_mint,
                pay_mint,
                pool_receive_balance as nat,
                pool_pay_balance as nat,
                amount_to_swap as nat,
            ) == Some(e),
        },
{
    if receive_mint == pay_mint {
        return Err(SwapProgramError::InvalidSwapMatchingAssets);
    }
    if amount_to_swap == 0 {
        return Err(SwapProgramError::InvalidSwapZeroAmount);
    }
    pool.process_swap(
        receive_mint,
        pay_mint,
        pool_receive_balance,
        pool_pay_balance,
        amount_to_swap,
    )
}

/// The minor units to mint for `quantity` whole units of an asset with
/// `decimals` decimals; `None` when that does not fit in 64 bits.
pub fn mint_tokens(quantity: u64, decimals: u8) -> (r: Option<u64>)
    ensures
        r is Some <==> scale_fits(quantity as nat, decimals as nat),
        r matches Some(v) ==> v == quantity * pow10(decimals as nat),
{
    scale_amount(quantity, decimals)
}

} // verus!
