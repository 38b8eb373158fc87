//! Token movements that an operation asks the host ledger to carry out.
use vstd::prelude::*;

use crate::key::Pubkey;

verus! {

/// A balance record that takes part in a transfer. The owner of the record
/// a transfer draws from is the one that authorises it.
#[derive(Clone, Copy, Debug, PartialEq, Eq, Structural)]
pub enum Holder {
    /// The signing user's own token account.
    User,
    /// The pool's token account for the asset, owned by the pool's address.
    Pool,
    /// The user's stake account, owned by an address derived from the user.
    Stake,
    /// The reward vault, owned by its own derived address.
    Vault,
}

/// Move `amount` minor units of `asset` from `from` to `to`.
#[derive(Clone, Copy, Debug)]
pub struct Transfer {
    pub asset: Pubkey,
    pub from: Holder,
    pub to: Holder,
    pub amount: u64,
}

impl Transfer {
    pub open spec fn is(self, asset: Pubkey, from: Holder, to: Holder, amount: nat) -> bool {
        &&& self.asset == asset
        &&& self.from == from
        &&& self.to == to
        &&& self.amount == amount
    }
}

} // verus!
