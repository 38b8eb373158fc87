use pt_sol_program::error::SwapProgramError;
use pt_sol_program::key::Pubkey;
use pt_sol_program::ledger::Holder;
use pt_sol_program::pool::{LiquidityPool, ASSET_SPACE};
use pt_sol_program::pricing::determine_swap_receive;
use pt_sol_program::program::{create_pool, fund_pool, mint_tokens, swap};

fn key(b: u8) -> Pubkey {
    Pubkey::new([b; 32])
}

fn pool_with(assets: &[u8]) -> LiquidityPool {
    let mut pool = create_pool(7);
    for a in assets {
        fund_pool(&mut pool, key(*a), 1, true).unwrap();
    }
    pool
}

#[test]
fn new_pool_is_empty() {
    let pool = create_pool(254);
    assert!(pool.assets.is_empty());
    assert_eq!(pool.bump, 254);
}

#[test]
fn keys_compare_by_every_byte() {
    let mut b = [3u8; 32];
    assert!(Pubkey::new(b) == key(3));
    b[31] = 4;
    assert!(Pubkey::new(b) != key(3));
    assert_eq!(Pubkey::new(b).to_bytes(), b);
}

#[test]
fn funding_registers_each_asset_once_in_order() {
    let mut pool = create_pool(1);
    for a in [5u8, 9, 5, 2, 9, 9] {
        fund_pool(&mut pool, key(a), 10, true).unwrap();
    }
    assert_eq!(pool.assets, vec![key(5), key(9), key(2)]);
}

#[test]
fn funding_returns_the_deposit() {
    let mut pool = create_pool(1);
    let t = fund_pool(&mut pool, key(8), 1234, true).unwrap();
    assert!(t.asset == key(8));
    assert_eq!(t.from, Holder::User);
    assert_eq!(t.to, Holder::Pool);
    assert_eq!(t.amount, 1234);
}

#[test]
fn new_asset_without_storage_is_refused() {
    let mut pool = pool_with(&[1]);
    assert_eq!(
        fund_pool(&mut pool, key(2), 10, false).unwrap_err(),
        SwapProgramError::InvalidAssetRegistration
    );
    assert_eq!(pool.assets, vec![key(1)]);
    // a known asset needs no storage
    assert!(fund_pool(&mut pool, key(1), 10, false).is_ok());
}

#[test]
fn check_asset_key_reports_unknown_assets() {
    let pool = pool_with(&[1, 2]);
    assert_eq!(pool.check_asset_key(&key(2)), Ok(()));
    assert_eq!(pool.check_asset_key(&key(3)), Err(SwapProgramError::InvalidAssetKey));
}

#[test]
fn realloc_sizes_growth_and_rent() {
    let g = LiquidityPool::realloc(LiquidityPool::SPACE, ASSET_SPACE, 2_000, 1_500).unwrap();
    assert_eq!(g.new_size, 45);
    assert_eq!(g.rent_top_up, 500);
    let g = LiquidityPool::realloc(45, ASSET_SPACE, 900, 900).unwrap();
    assert_eq!(g.rent_top_up, 0);
    assert_eq!(
        LiquidityPool::realloc(usize::MAX, 1, 10, 0).unwrap_err(),
        SwapProgramError::InvalidAssetRegistration
    );
    // an account that already holds more than the minimum costs nothing
    let g = LiquidityPool::realloc(10, 32, 10, 11).unwrap();
    assert_eq!(g.new_size, 42);
    assert_eq!(g.rent_top_up, 0);
}

#[test]
fn swap_example_releases_ninety() {
    let pool = pool_with(&[1, 2]);
    let plan = swap(&pool, key(1), key(2), 1000, 1000, 100).unwrap();
    assert!(plan.pay.asset == key(2));
    assert_eq!((plan.pay.from, plan.pay.to, plan.pay.amount), (Holder::User, Holder::Pool, 100));
    assert!(plan.receive.asset == key(1));
    assert_eq!(
        (plan.receive.from, plan.receive.to, plan.receive.amount),
        (Holder::Pool, Holder::User, 90)
    );
}

#[test]
fn swap_output_ignores_decimals_scale() {
    // 1000.000 of A (3 decimals) against 10.00 of B (2 decimals), paying 1.00 of B:
    // r = 1000 * 1 * 0.99 / (10 + 0.99) = 90.081..., i.e. 90081 minor units of A
    assert_eq!(determine_swap_receive(1_000_000, 1_000, 100), Ok(90_081));
}

#[test]
fn swap_zero_amount_is_refused() {
    let pool = pool_with(&[1, 2]);
    assert_eq!(
        swap(&pool, key(1), key(2), 1000, 1000, 0).unwrap_err(),
        SwapProgramError::InvalidSwapZeroAmount
    );
}

#[test]
fn swap_matching_assets_is_refused() {
    let pool = pool_with(&[1, 2]);
    assert_eq!(
        swap(&pool, key(1), key(1), 1000, 1000, 100).unwrap_err(),
        SwapProgramError::InvalidSwapMatchingAssets
    );
    assert_eq!(
        swap(&pool, key(1), key(1), 1000, 1000, 0).unwrap_err(),
        SwapProgramError::InvalidSwapMatchingAssets
    );
}

#[test]
fn swap_unregistered_asset_is_refused() {
    let pool = pool_with(&[1, 2]);
    assert_eq!(
        swap(&pool, key(3), key(2), 1000, 1000, 100).unwrap_err(),
        SwapProgramError::InvalidAssetKey
    );
    assert_eq!(
        swap(&pool, key(1), key(3), 1000, 1000, 100).unwrap_err(),
        SwapProgramError::InvalidAssetKey
    );
}

#[test]
fn swap_too_small_to_release_anything_is_refused() {
    let pool = pool_with(&[1, 2]);
    // 99 * 10 * 1 / (100 * 1000 + 99) < 1
    assert_eq!(
        swap(&pool, key(1), key(2), 10, 1000, 1).unwrap_err(),
        SwapProgramError::InvalidSwapNotEnoughPay
    );
    assert_eq!(
        swap(&pool, key(1), key(2), 0, 1000, 500).unwrap_err(),
        SwapProgramError::InvalidSwapNotEnoughPay
    );
}

#[test]
fn swap_never_releases_more_than_the_pool_holds() {
    let pool = pool_with(&[1, 2]);
    for (r, p, a) in [
        (1000u64, 0u64, 1u64),
        (u64::MAX, 0, u64::MAX),
        (u64::MAX, 1, u64::MAX),
        (u64::MAX, u64::MAX, u64::MAX),
        (7, 3, 1_000_000),
    ] {
        let plan = swap(&pool, key(1), key(2), r, p, a).unwrap();
        assert!(plan.receive.amount <= r);
    }
    // an empty pay side releases all but the rounding of the fee
    assert_eq!(swap(&pool, key(1), key(2), 1000, 0, 5).unwrap().receive.amount, 1000);
}

#[test]
fn swap_with_largest_values_is_exact() {
    // 99 * R * p / (100 * P + 99 * p) with R = P = p = u64::MAX is 99 * MAX / 199
    let m = u64::MAX as u128;
    let expected = (99 * m / 199) as u64;
    assert_eq!(determine_swap_receive(u64::MAX, u64::MAX, u64::MAX), Ok(expected));
}

#[test]
fn mint_scales_by_decimals() {
    assert_eq!(mint_tokens(5, 0), Some(5));
    assert_eq!(mint_tokens(5, 9), Some(5_000_000_000));
    assert_eq!(mint_tokens(0, 25), None);
    assert_eq!(mint_tokens(u64::MAX, 1), None);
    assert_eq!(mint_tokens(18, 18), Some(18_000_000_000_000_000_000));
    assert_eq!(mint_tokens(19, 18), None);
}

#[test]
fn pool_from_parts_rejects_duplicates() {
    let p = LiquidityPool::from_parts(vec![key(1), key(2), key(3)], 9).unwrap();
    assert_eq!(p.assets, vec![key(1), key(2), key(3)]);
    assert_eq!(p.bump, 9);
    assert!(LiquidityPool::from_parts(vec![key(1), key(2), key(1)], 9).is_none());
    assert!(LiquidityPool::from_parts(vec![], 0).unwrap().assets.is_empty());
}
