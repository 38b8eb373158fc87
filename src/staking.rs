//! The staking engine: one stake record per user, a flat per-slot reward,
//! and the recurring task that feeds the pool while a stake is active.
use vstd::prelude::*;

use crate::error::StakingError;
use crate::key::{Pubkey, THREAD_ID_LEN};
use crate::ledger::{Holder, Transfer};
use crate::units::{pow10, scale_amount, scale_fits};

verus! {

/// Seed of the reward vault's derived address.
pub const VAULT_SEED: &'static str = "vault";

/// Seed of each user's stake account.
pub const TOKEN_SEED: &'static str = "token";

/// Seed of each user's stake record.
pub const STAKE_INFO_SEED: &'static str = "stake_info";

/// Seed of the address that owns the scheduled tasks.
pub const THREAD_AUTHORITY_SEED: &'static str = "thread_authority";

/// A user's stake record.
#[derive(Clone, Copy, Debug, PartialEq, Eq, Structural)]
pub struct StakeInfo {
    /// The slot at which the current stake began, or the last one ended.
    pub stake_at_slot: u64,
    /// Whether a stake is active.
    pub is_staked: bool,
}

/// A recurring task to hand to the scheduler: once `trigger_slot` is reached,
/// fund the pool with `fund_amount` of `asset` drawn from the user's stake
/// account.
#[derive(Debug)]
pub struct ScheduledTask {
    pub thread_id: Vec<u8>,
    pub trigger_slot: u64,
    pub asset: Pubkey,
    pub source: Holder,
    pub fund_amount: u64,
}

/// What an accepted `stake` asks of the host: lock the deposit, then
/// schedule the task.
#[derive(Debug)]
pub struct StakePlan {
    pub deposit: Transfer,
    pub task: ScheduledTask,
}

/// The transfers of an accepted `unstake`: the reward, then the principal.
/// Every accepted `unstake` also ends the user's scheduled task; the plan
/// carries no field for it because the host cancels the task that it bound
/// to the user's stake, whatever the amounts.
#[derive(Clone, Copy, Debug)]
pub struct UnstakePlan {
    pub reward: Transfer,
    pub principal: Transfer,
}

/// Why `stake` refuses, if it does.
pub open spec fn stake_error(info: StakeInfo, amount: nat, decimals: nat) -> Option<StakingError> {
    if info.is_staked {
        Some(StakingError::AlreadyStaked)
    } else if amount == 0 {
        Some(StakingError::NoTokens)
    } else if !scale_fits(amount, decimals) {
        Some(StakingError::ArithmeticOverflow)
    } else {
        None
    }
}

/// Why `unstake` refuses, if it does.
pub open spec fn unstake_error(info: StakeInfo, slot: nat, decimals: nat) -> Option<StakingError> {
    if !info.is_staked {
        Some(StakingError::NotStaked)
    } else if !scale_fits((slot - info.stake_at_slot) as nat, decimals) {
        Some(StakingError::ArithmeticOverflow)
    } else {
        None
    }
}

/// The reward for a stake that began at `since` and ends at `slot`: one
/// whole unit per elapsed slot, whatever was staked.
pub open spec fn reward_for(since: nat, slot: nat, decimals: nat) -> nat {
    ((slot - since) as nat) * pow10(decimals)
}

/// Once a stake has been accepted, a second `stake` by the same user, before
/// any `unstake`, is refused as already staked.
pub proof fn lemma_second_stake_refused(
    info: StakeInfo,
    amount: nat,
    decimals: nat,
    slot: u64,
    second_amount: nat,
    second_decimals: nat,
)
    requires
        stake_error(info, amount, decimals) is None,
    ensures
        stake_error(
            StakeInfo { stake_at_slot: slot, is_staked: true },
            second_amount,
            second_decimals,
        ) == Some(StakingError::AlreadyStaked),
{
}

/// Without an active stake, `unstake` is refused as not staked; a fresh
/// record has none.
pub proof fn lemma_unstake_without_stake(info: StakeInfo, slot: nat, decimals: nat)
    requires
        !info.is_staked,
    ensures
        unstake_error(info, slot, decimals) == Some(StakingError::NotStaked),
        unstake_error(StakeInfo { stake_at_slot: 0, is_staked: false }, slot, decimals) == Some(
            StakingError::NotStaked,
        ),
{
}

/// A stake accepted at `slot` and ended at the same slot is accepted by
/// `unstake` with a zero reward; the principal returned is what the stake
/// account holds, which after a deposit into an empty account is the amount
/// staked in minor units.
pub proof fn lemma_round_trip_same_slot(info: StakeInfo, amount: nat, decimals: nat, slot: u64)
    requires
        stake_error(info, amount, decimals) is None,
    ensures
        unstake_error(
            StakeInfo { stake_at_slot: slot, is_staked: true },
            slot as nat,
            decimals,
        ) is None,
        reward_for(slot as nat, slot as nat, decimals) == 0,
        amount * pow10(decimals) <= u64::MAX,
{
    let p = pow10(decimals);
    assert(0 * p == 0) by (nonlinear_arith);
    assert(((slot - slot) as nat) == 0);
}

/// After `ticks` slots the reward is `ticks` whole units, whatever amount
/// was staked; `unstake` accepts an active stake whenever that reward, and
/// the power of ten, fit in 64 bits.
pub proof fn lemma_reward_per_slot(since: u64, ticks: nat, decimals: nat)
    ensures
        reward_for(since as nat, since as nat + ticks, decimals) == ticks * pow10(decimals),
        scale_fits(ticks, decimals) ==> unstake_error(
            StakeInfo { stake_at_slot: since, is_staked: true },
            since as nat + ticks,
            decimals,
        ) is None,
{
}

impl StakeInfo {
    /// A fresh record: no stake.
    pub fn new() -> (r: StakeInfo)
        ensures
            r == (StakeInfo { stake_at_slot: 0, is_staked: false }),
    {
        StakeInfo { stake_at_slot: 0, is_staked: false }
    }

    /// The identifier of the task scheduled for the owner of `key`: the
    /// address's first sixteen bytes.
    pub fn get_thread_id(key: Pubkey) -> (r: Vec<u8>)
        ensures
            r@ == key.bytes@.subrange(0, THREAD_ID_LEN as int),
    {
        let mut id: Vec<u8> = Vec::new();
        let mut i: usize = 0;
        while i < THREAD_ID_LEN
            invariant
                i <= THREAD_ID_LEN,
                id@ == key.bytes@.subrange(0, i as int),
            decreases THREAD_ID_LEN - i,
        {
            id.push(key.bytes[i]);
            i = i + 1;
            assert(id@ =~= key.bytes@.subrange(0, i as int));
        }
        id
    }
}

/// Builds the recurring task that, from `trigger_slot` on, deposits one
/// percent of the pool's balance of `mint` from the user's stake account.
/// The trigger slot comes from the pool's own sizing policy.
pub fn schedule_auto_fund_pool(
    mint: Pubkey,
    pool_token_balance: u64,
    thread_id: Vec<u8>,
    trigger_slot: u64,
) -> (r: ScheduledTask)
    ensures
        r.thread_id@ == thread_id@,
        r.trigger_slot == trigger_slot,
        r.asset == mint,
        r.source == Holder::Stake,
        r.fund_amount == pool_token_balance / 100,
{
    ScheduledTask {
        thread_id,
        trigger_slot,
        asset: mint,
        source: Holder::Stake,
        fund_amount: pool_token_balance / 100,
    }
}

/// Starts a stake of `amount` whole units of `mint` at `slot`.
///
/// Refuses with `AlreadyStaked` while a stake is active, `NoTokens` for a
/// zero amount and `ArithmeticOverflow` when the amount in minor units does
/// not fit; a refusal leaves the record as it was. On success the record is
/// active from `slot`, the deposit moves the amount in minor units from the
/// user to the stake account, and one task is scheduled.
pub fn stake(
    info: &mut StakeInfo,
    mint: Pubkey,
    decimals: u8,
    amount: u64,
    slot: u64,
    pool_token_balance: u64,
    thread_id: Vec<u8>,
    trigger_slot: u64,
) -> (r: Result<StakePlan, StakingError>)
    ensures
        match r {
            Ok(plan) => {
                &&& stake_error(*old(info), amount as nat, decimals as nat) is None
                &&& *final(info) == (StakeInfo { stake_at_slot: slot, is_staked: true })
                &&& plan.deposit.is(
                    mint,
                    Holder::User,
                    Holder::Stake,
                    amount as nat * pow10(decimals as nat),
                )
                &&& plan.task.thread_id@ == thread_id@
                &&& plan.task.trigger_slot == trigger_slot
                &&& plan.task.asset == mint
                &&& plan.task.source == Holder::Stake
                &&& plan.task.fund_amount == pool_token_balance / 100
            },
            Err(e) => {
                &&& stake_error(*old(info), amount as nat, decimals as nat) == Some(e)
                &&& *final(info) == *old(info)
            },
        },
{
    if info.is_staked {
        return Err(StakingError::AlreadyStaked);
    }
    if amount == 0 {
        return Err(StakingError::NoTokens);
    }
    let stake_amount = match scale_amount(amount, decimals) {
        Some(v) => v,
        None => return Err(StakingError::ArithmeticOverflow),
    };
    info.stake_at_slot = slot;
    info.is_staked = true;
    let deposit = Transfer { asset: mint, from: Holder::User, to: Holder::Stake, amount: stake_amount };
    let task = schedule_auto_fund_pool(mint, pool_token_balance, thread_id, trigger_slot);
    Ok(StakePlan { deposit, task })
}

/// Ends the active stake at `slot`, with `stake_balance` the minor units the
/// stake account holds.
///
/// Refuses with `NotStaked` when no stake is active and with
/// `ArithmeticOverflow` when the reward does not fit; a refusal leaves the
/// record as it was. On success the vault pays one whole unit of `mint` per
/// elapsed slot, the stake account returns all it holds, and the record is
/// inactive from `slot`.
pub fn unstake(info: &mut StakeInfo, mint: Pubkey, decimals: u8, slot: u64, stake_balance: u64) -> (r:
    Result<UnstakePlan, StakingError>)
    requires
        old(info).is_staked ==> old(info).stake_at_slot <= slot,
    ensures
        match r {
            Ok(plan) => {
                &&& unstake_error(*old(info), slot as nat, decimals as nat) is None
                &&& *final(info) == (StakeInfo { stake_at_slot: slot, is_staked: false })
                &&& plan.reward.is(
                    mint,
                    Holder::Vault,
                    Holder::User,
                    reward_for(old(info).stake_at_slot as nat, slot as nat, decimals as nat),
                )
                &&& plan.principal.is(mint, Holder::Stake, Holder::User, stake_balance as nat)
            },
            Err(e) => {
                &&& unstake_error(*old(info), slot as nat, decimals as nat) == Some(e)
                &&& *final(info) == *old(info)
            },
        },
{
    if !info.is_staked {
        return Err(StakingError::NotStaked);
    }
    let slots_passed = slot - info.stake_at_slot;
    let reward = match scale_amount(slots_passed, decimals) {
        Some(v) => v,
        None => return Err(StakingError::ArithmeticOverflow),
    };
    let reward = Transfer { asset: mint, from: Holder::Vault, to: Holder::User, amount: reward };
    let principal = Transfer {
        asset: mint,
        from: Holder::Stake,
        to: Holder::User,
        amount: stake_balance,
    };
    info.is_staked = false;
    info.stake_at_slot = slot;
    Ok(UnstakePlan { reward, principal })
}

} // verus!
