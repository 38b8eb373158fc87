//! The liquidity pool: a registry of accepted assets, deposits and swaps.
use vstd::prelude::*;

use crate::error::SwapProgramError;
use crate::key::Pubkey;
use crate::ledger::{Holder, Transfer};
use crate::pricing::{determine_swap_receive, swap_output};

verus! {

/// Bytes that one more registered asset adds to the pool's account.
pub const ASSET_SPACE: usize = 32;

/// The registry after registering `key`: unchanged if it is there already,
/// else `key` appended.
pub open spec fn registry_add(assets: Seq<Pubkey>, key: Pubkey) -> Seq<Pubkey> {
    if assets.contains(key) {
        assets
    } else {
        assets.push(key)
    }
}

/// The registry after funding each asset of `funded` in turn.
pub open spec fn registry_after(assets: Seq<Pubkey>, funded: Seq<Pubkey>) -> Seq<Pubkey>
    decreases funded.len(),
{
    if funded.len() == 0 {
        assets
    } else {
        registry_add(registry_after(assets, funded.drop_last()), funded.last())
    }
}

/// Any sequence of successful deposits, from a registry without duplicates,
/// leaves a registry without duplicates that holds exactly the assets it held
/// and those funded.
pub proof fn lemma_registry_after(assets: Seq<Pubkey>, funded: Seq<Pubkey>)
    requires
        assets.no_duplicates(),
    ensures
        registry_after(assets, funded).no_duplicates(),
        registry_after(assets, funded).to_set() == assets.to_set().union(funded.to_set()),
    decreases funded.len(),
{
    if funded.len() > 0 {
        let prefix = funded.drop_last();
        let key = funded.last();
        lemma_registry_after(assets, prefix);
        let before = registry_after(assets, prefix);
        if !before.contains(key) {
            assert forall|i: int, j: int|
                0 <= i < before.push(key).len() && 0 <= j < before.push(key).len() && i != j
                implies before.push(key)[i] != before.push(key)[j] by {
                if i == before.len() {
                    assert(before.contains(before[j]));
                } else if j == before.len() {
                    assert(before.contains(before[i]));
                }
            }
        }
        assert(funded =~= prefix.push(key));
        prefix.lemma_push_to_set_commute(key);
        before.lemma_push_to_set_commute(key);
        if before.contains(key) {
            assert(before.to_set().contains(key));
        }
        assert(registry_after(assets, funded).to_set() =~= assets.to_set().union(funded.to_set()));
    }
}

/// What growing the pool's account for one more asset takes.
#[derive(Clone, Copy, Debug)]
pub struct StorageGrowth {
    /// The account's size after growing.
    pub new_size: usize,
    /// Lamports the payer must add so that the grown account stays rent-exempt.
    pub rent_top_up: u64,
}

/// The pool's state: the assets it accepts, in order of registration, and the
/// nonce of its derived address.
#[derive(Debug)]
pub struct LiquidityPool {
    pub assets: Vec<Pubkey>,
    pub bump: u8,
}

/// The plan of an accepted swap: the payer's payment into the pool, then the
/// pool's payout to the payer.
#[derive(Clone, Copy, Debug)]
pub struct SwapPlan {
    pub pay: Transfer,
    pub receive: Transfer,
}

impl LiquidityPool {
    /// Seed prefix of the pool's derived address.
    pub const SEED_PREFIX: &'static str = "liquidity_pool";

    /// Size of a new pool's account: discriminator, empty vector, nonce.
    pub const SPACE: usize = 13;

    /// The registry never holds an asset twice.
    pub open spec fn wf(&self) -> bool {
        self.assets@.no_duplicates()
    }

    pub open spec fn registered(&self, key: Pubkey) -> bool {
        self.assets@.contains(key)
    }

    /// A pool with an empty registry.
    pub fn new(bump: u8) -> (r: LiquidityPool)
        ensures
            r.assets@ == Seq::<Pubkey>::empty(),
            r.bump == bump,
            r.wf(),
    {
        LiquidityPool { assets: Vec::new(), bump }
    }

    /// A pool holding `assets` as its registry, unless an asset occurs twice.
    pub fn from_parts(assets: Vec<Pubkey>, bump: u8) -> (r: Option<LiquidityPool>)
        ensures
            r is Some <==> assets@.no_duplicates(),
            r matches Some(p) ==> p.assets@ == assets@ && p.bump == bump,
    {
        let mut i: usize = 0;
        while i < assets.len()
            invariant
                i <= assets@.len(),
                forall|a: int, b: int| 0 <= a < b < i ==> assets@[a] != assets@[b],
            decreases assets@.len() - i,
        {
            let mut j: usize = 0;
            while j < i
                invariant
                    i < assets@.len(),
                    j <= i,
                    forall|a: int| 0 <= a < j ==> assets@[a] != assets@[i as int],
                decreases i - j,
            {
                if assets[j] == assets[i] {
                    return None;
                }
                j = j + 1;
            }
            i = i + 1;
        }
        Some(LiquidityPool { assets, bump })
    }

    /// Accepts `key` exactly when it is registered.
    pub fn check_asset_key(&self, key: &Pubkey) -> (r: Result<(), SwapProgramError>)
        ensures
            r is Ok <==> self.registered(*key),
            r is Err ==> r == Err::<(), SwapProgramError>(SwapProgramError::InvalidAssetKey),
    {
        let mut i: usize = 0;
        while i < self.assets.len()
            invariant
                i <= self.assets@.len(),
                forall|j: int| 0 <= j < i ==> self.assets@[j] != *key,
            decreases self.assets@.len() - i,
        {
            if self.assets[i] == *key {
                return Ok(());
            }
            i = i + 1;
        }
        Err(SwapProgramError::InvalidAssetKey)
    }

    /// Registers `key` if it is absent. `storage_grown` tells whether the
    /// account could be grown for one more entry; registration fails without
    /// it and leaves the pool as it was.
    pub fn add_asset(&mut self, key: Pubkey, storage_grown: bool) -> (r: Result<(), SwapProgramError>)
        requires
            old(self).wf(),
        ensures
            final(self).wf(),
            final(self).bump == old(self).bump,
            r is Ok <==> (old(self).registered(key) || storage_grown),
            r is Ok ==> final(self).assets@ == registry_add(old(self).assets@, key),
            r is Err ==> r == Err::<(), SwapProgramError>(SwapProgramError::InvalidAssetRegistration)
                && final(self).assets@ == old(self).assets@,
    {
        match self.check_asset_key(&key) {
            Ok(()) => Ok(()),
            Err(_) => {
                if !storage_grown {
                    return Err(SwapProgramError::InvalidAssetRegistration);
                }
                self.assets.push(key);
                proof {
                    let s = old(self).assets@;
                    assert forall|i: int, j: int|
                        0 <= i < s.push(key).len() && 0 <= j < s.push(key).len() && i != j
                        implies s.push(key)[i] != s.push(key)[j] by {
                        if i == s.len() {
                            assert(s.contains(s[j]));
                        } else if j == s.len() {
                            assert(s.contains(s[i]));
                        }
                    }
                }
                Ok(())
            },
        }
    }

    /// Sizes the growth of the pool's account by `space_to_add` bytes.
    /// `minimum_balance` is the rent-exempt minimum for the grown size and
    /// `lamports` what the account holds. The payer adds what is missing,
    /// nothing when the account already holds the minimum. Fails only when
    /// the size overflows.
    pub fn realloc(data_len: usize, space_to_add: usize, minimum_balance: u64, lamports: u64) -> (r:
        Result<StorageGrowth, SwapProgramError>)
        ensures
            r is Ok <==> data_len + space_to_add <= usize::MAX,
            r matches Ok(g) ==> g.new_size == data_len + space_to_add && g.rent_top_up == (if lamports
                <= minimum_balance {
                minimum_balance - lamports
            } else {
                0
            }),
            r is Err ==> r == Err::<StorageGrowth, SwapProgramError>(
                SwapProgramError::InvalidAssetRegistration,
            ),
    {
        let new_size = match data_len.checked_add(space_to_add) {
            Some(n) => n,
            None => return Err(SwapProgramError::InvalidAssetRegistration),
        };
        let rent_top_up = if lamports <= minimum_balance {
            minimum_balance - lamports
        } else {
            0
        };
        Ok(StorageGrowth { new_size, rent_top_up })
    }

    /// Deposits `amount` of `mint` from the user into the pool, registering
    /// the asset first when it is new (see `add_asset`).
    pub fn fund(&mut self, mint: Pubkey, amount: u64, storage_grown: bool) -> (r: Result<
        Transfer,
        SwapProgramError,
    >)
        requires
            old(self).wf(),
        ensures
            final(self).wf(),
            final(self).bump == old(self).bump,
            r is Ok <==> (old(self).registered(mint) || storage_grown),
            r matches Ok(t) ==> t.is(mint, Holder::User, Holder::Pool, amount as nat)
                && final(self).assets@ == registry_add(old(self).assets@, mint),
            r is Err ==> r == Err::<Transfer, SwapProgramError>(
                SwapProgramError::InvalidAssetRegistration,
            ) && final(self).assets@ == old(self).assets@,
    {
        match self.add_asset(mint, storage_grown) {
            Ok(()) => Ok(Transfer { asset: mint, from: Holder::User, to: Holder::Pool, amount }),
            Err(e) => Err(e),
        }
    }

    /// Why a swap of `pay_amount` of `pay_mint` for `receive_mint` is refused,
    /// once the amount is known to be positive and the assets distinct.
    pub open spec fn process_swap_error(
        &self,
        receive_mint: Pubkey,
        pay_mint: Pubkey,
        pool_receive_balance: nat,
        pool_pay_balance: nat,
        pay_amount: nat,
    ) -> Option<SwapProgramError> {
        if !self.registered(receive_mint) || !self.registered(pay_mint) {
            Some(SwapProgramError::InvalidAssetKey)
        } else if swap_output(pool_receive_balance, pool_pay_balance, pay_amount) == 0 {
            Some(SwapProgramError::InvalidSwapNotEnoughPay)
        } else {
            None
        }
    }

    /// Prices a swap against the pool's balances of the two assets and
    /// returns the two transfers that carry it out.
    pub fn process_swap(
        &self,
        receive_mint: Pubkey,
        pay_mint: Pubkey,
        pool_receive_balance: u64,
        pool_pay_balance: u64,
        pay_amount: u64,
    ) -> (r: Result<SwapPlan, SwapProgramError>)
        requires
            pay_amount > 0,
        ensures
            match r {
                Ok(plan) => {
                    &&& self.process_swap_error(
                        receive_mint,
                        pay_mint,
                        pool_receive_balance as nat,
                        pool_pay_balance as nat,
                        pay_amount as nat,
                    ) is None
                    &&& plan.pay.is(pay_mint, Holder::User, Holder::Pool, pay_amount as nat)
                    &&& plan.receive.is(
                        receive_mint,
                        Holder::Pool,
                        Holder::User,
                        swap_output(
                            pool_receive_balance as nat,
                            pool_pay_balance as nat,
                            pay_amount as nat,
                        ),
                    )
                    &&& plan.receive.amount <= pool_receive_balance
                },
                Err(e) => self.process_swap_error(
                    receive_mint,
                    pay_mint,
                    pool_receive_balance as nat,
                    pool_pay_balance as nat,
                    pay_amount as nat,
                ) == Some(e),
            },
    {
        self.check_asset_key(&receive_mint)?;
        self.check_asset_key(&pay_mint)?;
        let receive_amount = determine_swap_receive(
            pool_receive_balance,
            pool_pay_balance,
            pay_amount,
        )?;
        if receive_amount == 0 {
            Err(SwapProgramError::InvalidSwapNotEnoughPay)
        } else {
            Ok(
                SwapPlan {
                    pay: Transfer {
                        asset: pay_mint,
                        from: Holder::User,
                        to: Holder::Pool,
                        amount: pay_amount,
                    },
                    receive: Transfer {
                        asset: receive_mint,
                        from: Holder::Pool,
                        to: Holder::User,
                        amount: receive_amount,
                    },
                },
            )
        }
    }
}

} // verus!
