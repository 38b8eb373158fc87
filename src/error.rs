//! Error kinds of the two components.
use vstd::prelude::*;

verus! {

/// Why a pool operation was refused.
#[derive(Clone, Copy, Debug, PartialEq, Eq, Structural)]
pub enum SwapProgramError {
    /// The asset is not in the pool's registry.
    InvalidAssetKey,
    /// Growing the registry's storage could not be funded.
    InvalidAssetRegistration,
    /// The swap would release more than the pool holds.
    InvalidSwapNotEnoughLiquidity,
    /// The pay amount is too small to release anything after the fee.
    InvalidSwapNotEnoughPay,
    /// The received and the paid asset are the same.
    InvalidSwapMatchingAssets,
    /// The pay amount is zero.
    InvalidSwapZeroAmount,
}

/// Why a staking transition was refused.
#[derive(Clone, Copy, Debug, PartialEq, Eq, Structural)]
pub enum StakingError {
    /// The user already has an active stake.
    AlreadyStaked,
    /// The user has no active stake.
    NotStaked,
    /// The stake amount is zero.
    NoTokens,
    /// Scaling by the asset's decimals does not fit in 64 bits.
    ArithmeticOverflow,
}

} // verus!
