use kurayashiki::{
    collect_from_pool, create_pool, distribute_to_pool, initialize, neutralize, CentralVault,
    CustodyShard, ErrorCode, PriceInfo, UserBalances,
};

fn ledger(current: u64, updated: i64, old: u64, grace: i64) -> PriceInfo {
    PriceInfo {
        current_usdc_per_sol_price: current,
        current_usdc_per_sol_price_updated: updated,
        old_usdc_per_sol_price: old,
        old_usdc_per_sol_price_grace_period: grace,
    }
}

fn shard(index: u32, base: u64, stable: u64) -> CustodyShard {
    CustodyShard { index, base_balance: base, stable_balance: stable }
}

#[test]
fn initialize_seeds_vault_at_floor() {
    let (info, vault) = initialize();
    assert_eq!(info, PriceInfo::zeroed());
    assert_eq!(vault, CentralVault { base_balance: 100_000_000, stable_balance: 0 });
}

#[test]
fn create_pool_seeds_shard_at_cap() {
    let s = create_pool(2);
    assert_eq!(s, shard(2, 100_000_000, 0));
}

#[test]
fn neutralize_without_loss_is_noop() {
    let info = ledger(2_000_000, 100, 0, 0);
    let mut s = shard(0, 100_000_000, 5);
    let mut user = UserBalances { base_balance: 1_000_000_000, stable_balance: 77 };
    // Balance equal to the snapshot: nothing was spent.
    assert_eq!(neutralize(&info, &mut s, &mut user, 2_000_000, 1_000_000_000, 200), Ok(()));
    assert_eq!(s, shard(0, 100_000_000, 5));
    assert_eq!(user, UserBalances { base_balance: 1_000_000_000, stable_balance: 77 });
    // Balance above the snapshot: still nothing to settle.
    assert_eq!(neutralize(&info, &mut s, &mut user, 2_000_000, 999_999_999, 200), Ok(()));
    assert_eq!(s, shard(0, 100_000_000, 5));
    assert_eq!(user, UserBalances { base_balance: 1_000_000_000, stable_balance: 77 });
}

#[test]
fn neutralize_charges_and_refunds_at_the_ceiling() {
    let info = ledger(2_000_000, 100, 0, 0);
    let mut s = shard(0, 100_000_000, 0);
    // Loss of exactly the per-operation ceiling, 50_000 base units:
    // charge = ceil(2_000_000 * 50_000 / 1_000_000_000) = 100.
    let mut user = UserBalances { base_balance: 999_950_000, stable_balance: 10_000_000 };
    assert_eq!(neutralize(&info, &mut s, &mut user, 2_000_000, 1_000_000_000, 200), Ok(()));
    assert_eq!(user, UserBalances { base_balance: 1_000_000_000, stable_balance: 9_999_900 });
    assert_eq!(s, shard(0, 99_950_000, 100));
}

#[test]
fn neutralize_rejects_loss_beyond_the_ceiling() {
    let info = ledger(2_000_000, 100, 0, 0);
    let mut s = shard(0, 100_000_000, 0);
    // One unit past the ceiling.
    let mut user = UserBalances { base_balance: 999_949_999, stable_balance: 10_000_000 };
    assert_eq!(
        neutralize(&info, &mut s, &mut user, 2_000_000, 1_000_000_000, 200),
        Err(ErrorCode::ExcessSettlementDelta)
    );
    assert_eq!(s, shard(0, 100_000_000, 0));
    assert_eq!(user, UserBalances { base_balance: 999_949_999, stable_balance: 10_000_000 });
}

#[test]
fn neutralize_never_under_collects() {
    // The smallest possible loss at the smallest price still charges one
    // stable-token unit: rounding is always against the caller.
    let info = ledger(1, 100, 0, 0);
    let mut s = shard(0, 100_000_000, 0);
    let mut user = UserBalances { base_balance: 999_999_999, stable_balance: 5 };
    assert_eq!(neutralize(&info, &mut s, &mut user, 1, 1_000_000_000, 200), Ok(()));
    assert_eq!(user, UserBalances { base_balance: 1_000_000_000, stable_balance: 4 });
    assert_eq!(s, shard(0, 99_999_999, 1));
}

#[test]
fn neutralize_accepts_current_price_until_interval_boundary() {
    let info = ledger(2_000_000, 1_000, 0, 0);
    let boundary = 1_000 + 60 * 60 * 72;
    let mut s = shard(0, 100_000_000, 0);
    let mut user = UserBalances { base_balance: 999_999_000, stable_balance: 1_000 };
    assert_eq!(neutralize(&info, &mut s, &mut user, 2_000_000, 1_000_000_000, boundary), Ok(()));
    // One second past the boundary the current price no longer settles.
    let mut s2 = shard(0, 100_000_000, 0);
    let mut user2 = UserBalances { base_balance: 999_999_000, stable_balance: 1_000 };
    assert_eq!(
        neutralize(&info, &mut s2, &mut user2, 2_000_000, 1_000_000_000, boundary + 1),
        Err(ErrorCode::PriceMismatch)
    );
    assert_eq!(s2, shard(0, 100_000_000, 0));
    assert_eq!(user2, UserBalances { base_balance: 999_999_000, stable_balance: 1_000 });
}

#[test]
fn neutralize_accepts_old_price_within_grace() {
    // Current price is stale, but the superseded price is inside its grace
    // window; the charge is still computed from the current price.
    let boundary = 1_000 + 60 * 60 * 72;
    let info = ledger(2_000_000, 1_000, 1_500_000, boundary + 300);
    let mut s = shard(0, 100_000_000, 0);
    let mut user = UserBalances { base_balance: 999_950_000, stable_balance: 1_000 };
    assert_eq!(
        neutralize(&info, &mut s, &mut user, 1_500_000, 1_000_000_000, boundary + 100),
        Ok(())
    );
    assert_eq!(user, UserBalances { base_balance: 1_000_000_000, stable_balance: 900 });
    assert_eq!(s, shard(0, 99_950_000, 100));
    // Past the grace deadline the old price is rejected too.
    let mut s2 = shard(0, 100_000_000, 0);
    let mut user2 = UserBalances { base_balance: 999_950_000, stable_balance: 1_000 };
    assert_eq!(
        neutralize(&info, &mut s2, &mut user2, 1_500_000, 1_000_000_000, boundary + 301),
        Err(ErrorCode::PriceMismatch)
    );
}

#[test]
fn neutralize_rejects_price_matching_nothing() {
    let info = ledger(2_000_000, 1_000, 1_500_000, 5_000);
    let mut s = shard(0, 100_000_000, 0);
    let mut user = UserBalances { base_balance: 999_950_000, stable_balance: 1_000 };
    assert_eq!(
        neutralize(&info, &mut s, &mut user, 1_999_999, 1_000_000_000, 1_100),
        Err(ErrorCode::PriceMismatch)
    );
    assert_eq!(s, shard(0, 100_000_000, 0));
}

#[test]
fn collect_sweeps_all_stable_balances() {
    let mut shards = vec![
        shard(0, 11, 5),
        shard(1, 22, 0),
        shard(2, 33, 7),
        shard(3, 44, 9),
    ];
    let mut vault = CentralVault { base_balance: 500, stable_balance: 100 };
    collect_from_pool(&mut shards, &mut vault);
    assert_eq!(
        shards,
        vec![shard(0, 11, 0), shard(1, 22, 0), shard(2, 33, 0), shard(3, 44, 0)]
    );
    assert_eq!(vault, CentralVault { base_balance: 500, stable_balance: 121 });
}

#[test]
fn distribute_tops_every_shard_to_the_cap() {
    let mut shards = vec![
        shard(0, 99_999_000, 1),
        shard(1, 100_000_000, 2),
        shard(2, 100_000_500, 3),
        shard(3, 0, 4),
    ];
    // Deficits: 1_000 + 0 + 0 + 100_000_000.
    let mut vault = CentralVault {
        base_balance: 100_000_000 + 100_001_000,
        stable_balance: 9,
    };
    assert_eq!(distribute_to_pool(&mut shards, &mut vault), Ok(()));
    assert_eq!(
        shards,
        vec![
            shard(0, 100_000_000, 1),
            shard(1, 100_000_000, 2),
            shard(2, 100_000_500, 3),
            shard(3, 100_000_000, 4),
        ]
    );
    assert_eq!(vault, CentralVault { base_balance: 100_000_000, stable_balance: 9 });
}

#[test]
fn distribute_fails_whole_when_one_unit_short() {
    let mut shards = vec![
        shard(0, 99_999_000, 1),
        shard(1, 100_000_000, 2),
        shard(2, 100_000_500, 3),
        shard(3, 0, 4),
    ];
    let mut vault = CentralVault {
        base_balance: 100_000_000 + 100_000_999,
        stable_balance: 9,
    };
    assert_eq!(distribute_to_pool(&mut shards, &mut vault), Err(ErrorCode::InsufficientCustodyFunds));
    // No shard was partially refilled.
    assert_eq!(
        shards,
        vec![
            shard(0, 99_999_000, 1),
            shard(1, 100_000_000, 2),
            shard(2, 100_000_500, 3),
            shard(3, 0, 4),
        ]
    );
    assert_eq!(vault, CentralVault { base_balance: 200_000_999, stable_balance: 9 });
}

#[test]
fn distribute_fails_below_the_reserve_floor() {
    let mut shards = vec![shard(0, 100_000_000, 0)];
    let mut vault = CentralVault { base_balance: 99_999_999, stable_balance: 0 };
    assert_eq!(distribute_to_pool(&mut shards, &mut vault), Err(ErrorCode::InsufficientCustodyFunds));
    assert_eq!(vault, CentralVault { base_balance: 99_999_999, stable_balance: 0 });
}
