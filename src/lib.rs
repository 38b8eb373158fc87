//! Accounting core of a liquidity pool with constant-product swaps and of a
//! staking engine with a flat per-slot reward.
//!
//! Every operation is a pure state transition: it takes the records it reads
//! as plain values, updates the records it owns, and hands back the token
//! transfers and scheduler requests that the host must carry out.
pub mod error;
pub mod key;
pub mod ledger;
pub mod pool;
pub mod pricing;
pub mod program;
pub mod staking;
pub mod units;
