//! Pool custody: fixed shards holding bounded slices of the base coin, a
//! central vault, and the collect / distribute maintenance policies.

use vstd::prelude::*;
use crate::errors::ErrorCode;
use crate::price::PriceInfo;

verus! {

/// Reserve floor of the central vault's base-coin balance; the vault is
/// seeded with exactly this much and distribution never dips below it.
pub const DEPOSIT_SOL_MIN_BALANCE: u64 = 100_000_000;

/// Cap that every custody shard's base-coin balance is refilled up to.
pub const POOL_DEPOSIT_SOL_MAX_BALANCE: u64 = 100_000_000;

/// Number of custody shards one protocol instance owns.
pub const POOL_COUNT: usize = 4;

/// One custody sub-account: a bounded slice of base-coin and stable-token
/// balances.
#[derive(Clone, Copy, Debug, PartialEq, Eq, Structural)]
pub struct CustodyShard {
    /// Position of this shard among the instance's shards.
    pub index: u32,
    /// Base-coin balance.
    pub base_balance: u64,
    /// Stable-token balance accumulated by settlements.
    pub stable_balance: u64,
}

/// The central custody account: aggregates shard sweep-ups and funds
/// shard refills.
#[derive(Clone, Copy, Debug, PartialEq, Eq, Structural)]
pub struct CentralVault {
    /// Base-coin balance; never distributed below the reserve floor.
    pub base_balance: u64,
    /// Stable-token balance pending conversion back into the base coin.
    pub stable_balance: u64,
}

/// Sum of the shards' stable-token balances.
pub open spec fn sum_stable(shards: Seq<CustodyShard>) -> int
    decreases shards.len(),
{
    if shards.len() == 0 {
        0
    } else {
        sum_stable(shards.drop_last()) + shards.last().stable_balance
    }
}

/// How much one shard is short of the refill cap.
pub open spec fn shard_deficit(shard: CustodyShard) -> int {
    if shard.base_balance < POOL_DEPOSIT_SOL_MAX_BALANCE {
        POOL_DEPOSIT_SOL_MAX_BALANCE - shard.base_balance
    } else {
        0
    }
}

/// Total base-coin amount needed to top every shard up to the cap.
pub open spec fn total_deficit(shards: Seq<CustodyShard>) -> int
    decreases shards.len(),
{
    if shards.len() == 0 {
        0
    } else {
        total_deficit(shards.drop_last()) + shard_deficit(shards.last())
    }
}

proof fn lemma_sum_stable_take_step(s: Seq<CustodyShard>, i: int)
    requires
        0 <= i < s.len(),
    ensures
        sum_stable(s.take(i + 1)) == sum_stable(s.take(i)) + s[i].stable_balance,
{
    assert(s.take(i + 1).drop_last() =~= s.take(i));
    assert(s.take(i + 1).last() == s[i]);
}

proof fn lemma_sum_stable_prefix_le(s: Seq<CustodyShard>, i: int)
    requires
        0 <= i <= s.len(),
    ensures
        sum_stable(s.take(i)) <= sum_stable(s),
    decreases s.len() - i,
{
    if i == s.len() {
        assert(s.take(i) =~= s);
    } else {
        lemma_sum_stable_take_step(s, i);
        lemma_sum_stable_prefix_le(s, i + 1);
    }
}

proof fn lemma_total_deficit_take_step(s: Seq<CustodyShard>, i: int)
    requires
        0 <= i < s.len(),
    ensures
        total_deficit(s.take(i + 1)) == total_deficit(s.take(i)) + shard_deficit(s[i]),
{
    assert(s.take(i + 1).drop_last() =~= s.take(i));
    assert(s.take(i + 1).last() == s[i]);
}

proof fn lemma_total_deficit_prefix_le(s: Seq<CustodyShard>, i: int)
    requires
        0 <= i <= s.len(),
    ensures
        total_deficit(s.take(i)) <= total_deficit(s),
    decreases s.len() - i,
{
    if i == s.len() {
        assert(s.take(i) =~= s);
    } else {
        lemma_total_deficit_take_step(s, i);
        lemma_total_deficit_prefix_le(s, i + 1);
    }
}

proof fn lemma_total_deficit_bound(s: Seq<CustodyShard>)
    ensures
        0 <= total_deficit(s) <= s.len() * POOL_DEPOSIT_SOL_MAX_BALANCE,
    decreases s.len(),
{
    if s.len() > 0 {
        lemma_total_deficit_bound(s.drop_last());
        assert((s.len() - 1) * POOL_DEPOSIT_SOL_MAX_BALANCE + POOL_DEPOSIT_SOL_MAX_BALANCE
            == s.len() * POOL_DEPOSIT_SOL_MAX_BALANCE) by (nonlinear_arith);
    }
}

/// Seeds a fresh protocol instance: the vault starts at exactly the reserve
/// floor with nothing pending conversion, and the price ledger is zeroed.
pub fn initialize() -> (r: (PriceInfo, CentralVault))
    ensures
        r.0 == (PriceInfo {
            current_usdc_per_sol_price: 0,
            current_usdc_per_sol_price_updated: 0,
            old_usdc_per_sol_price: 0,
            old_usdc_per_sol_price_grace_period: 0,
        }),
        r.1 == (CentralVault { base_balance: DEPOSIT_SOL_MIN_BALANCE, stable_balance: 0 }),
{
    (
        PriceInfo::zeroed(),
        CentralVault { base_balance: DEPOSIT_SOL_MIN_BALANCE, stable_balance: 0 },
    )
}

/// Seeds one custody shard with its initial base-coin allocation, which is
/// exactly the refill cap.
pub fn create_pool(index: u32) -> (r: CustodyShard)
    ensures
        r == (CustodyShard {
            index,
            base_balance: POOL_DEPOSIT_SOL_MAX_BALANCE,
            stable_balance: 0,
        }),
{
    CustodyShard { index, base_balance: POOL_DEPOSIT_SOL_MAX_BALANCE, stable_balance: 0 }
}

/// Sweeps every shard's entire stable-token balance into the vault; a shard
/// already at zero is skipped rather than treated as an error. Base-coin
/// balances are untouched.
#[verifier::loop_isolation(false)]
pub fn collect_from_pool(shards: &mut Vec<CustodyShard>, vault: &mut CentralVault)
    requires
        old(vault).stable_balance + sum_stable(old(shards)@) <= u64::MAX,
    ensures
        final(shards)@.len() == old(shards)@.len(),
        forall|j: int| 0 <= j < old(shards)@.len() ==> final(shards)@[j] == (CustodyShard {
            stable_balance: 0u64,
            ..old(shards)@[j]
        }),
        final(vault).stable_balance == old(vault).stable_balance + sum_stable(old(shards)@),
        final(vault).base_balance == old(vault).base_balance,
{
    let ghost s0 = shards@;
    let ghost v0 = *vault;
    let mut i: usize = 0;
    while i < shards.len()
        invariant
            0 <= i <= s0.len(),
            shards@.len() == s0.len(),
            forall|j: int| 0 <= j < i ==> shards@[j] == (CustodyShard {
                stable_balance: 0u64,
                ..s0[j]
            }),
            forall|j: int| i <= j < s0.len() ==> shards@[j] == s0[j],
            vault.stable_balance == v0.stable_balance + sum_stable(s0.take(i as int)),
            vault.base_balance == v0.base_balance,
        decreases shards.len() - i,
    {
        let amount = shards[i].stable_balance;
        proof {
            lemma_sum_stable_take_step(s0, i as int);
            lemma_sum_stable_prefix_le(s0, i as int + 1);
        }
        if amount != 0 {
            let drained = CustodyShard { stable_balance: 0, ..shards[i] };
            shards[i] = drained;
            vault.stable_balance = vault.stable_balance + amount;
        }
        i = i + 1;
    }
    proof {
        assert(s0.take(s0.len() as int) =~= s0);
    }
}

/// Tops every shard's base-coin balance up to the cap from the vault,
/// leaving shards at or above the cap untouched. Succeeds exactly when the
/// vault holds the reserve floor plus the whole refill target; otherwise
/// nothing changes: the refill is never applied partially.
#[verifier::loop_isolation(false)]
pub fn distribute_to_pool(shards: &mut Vec<CustodyShard>, vault: &mut CentralVault) -> (r: Result<
    (),
    ErrorCode,
>)
    ensures
        r.is_ok() <==> old(vault).base_balance >= DEPOSIT_SOL_MIN_BALANCE + total_deficit(
            old(shards)@,
        ),
        (match r {
            Ok(()) => final(shards)@.len() == old(shards)@.len() && (forall|j: int|
                0 <= j < old(shards)@.len() ==> final(shards)@[j] == (CustodyShard {
                    base_balance: (if old(shards)@[j].base_balance
                        < POOL_DEPOSIT_SOL_MAX_BALANCE {
                        POOL_DEPOSIT_SOL_MAX_BALANCE
                    } else {
                        old(shards)@[j].base_balance
                    }),
                    ..old(shards)@[j]
                })) && final(vault).base_balance == old(vault).base_balance - total_deficit(
                old(shards)@,
            ) && final(vault).stable_balance == old(vault).stable_balance,
            Err(e) => e == ErrorCode::InsufficientCustodyFunds && *final(shards) == *old(shards)
                && *final(vault) == *old(vault),
        }),
{
    proof {
        lemma_total_deficit_bound(shards@);
    }
    if vault.base_balance < DEPOSIT_SOL_MIN_BALANCE {
        return Err(ErrorCode::InsufficientCustodyFunds);
    }
    let allocatable = vault.base_balance - DEPOSIT_SOL_MIN_BALANCE;
    let ghost s0 = shards@;
    let mut refill: u128 = 0;
    let mut i: usize = 0;
    while i < shards.len()
        invariant
            0 <= i <= s0.len(),
            refill == total_deficit(s0.take(i as int)),
        decreases shards.len() - i,
    {
        proof {
            lemma_total_deficit_take_step(s0, i as int);
            lemma_total_deficit_bound(s0.take(i as int + 1));
        }
        if shards[i].base_balance < POOL_DEPOSIT_SOL_MAX_BALANCE {
            refill = refill + ((POOL_DEPOSIT_SOL_MAX_BALANCE - shards[i].base_balance) as u128);
        }
        i = i + 1;
    }
    proof {
        assert(s0.take(s0.len() as int) =~= s0);
    }
    if (allocatable as u128) < refill {
        return Err(ErrorCode::InsufficientCustodyFunds);
    }
    let ghost v0 = *vault;
    let mut i: usize = 0;
    while i < shards.len()
        invariant
            0 <= i <= s0.len(),
            shards@.len() == s0.len(),
            forall|j: int| 0 <= j < i ==> shards@[j] == (CustodyShard {
                base_balance: (if s0[j].base_balance < POOL_DEPOSIT_SOL_MAX_BALANCE {
                    POOL_DEPOSIT_SOL_MAX_BALANCE
                } else {
                    s0[j].base_balance
                }),
                ..s0[j]
            }),
            forall|j: int| i <= j < s0.len() ==> shards@[j] == s0[j],
            vault.base_balance == v0.base_balance - total_deficit(s0.take(i as int)),
            vault.stable_balance == v0.stable_balance,
        decreases shards.len() - i,
    {
        proof {
            lemma_total_deficit_take_step(s0, i as int);
            lemma_total_deficit_prefix_le(s0, i as int + 1);
        }
        let current = shards[i].base_balance;
        if current < POOL_DEPOSIT_SOL_MAX_BALANCE {
            let amount = POOL_DEPOSIT_SOL_MAX_BALANCE - current;
            let refilled = CustodyShard { base_balance: POOL_DEPOSIT_SOL_MAX_BALANCE, ..shards[i] };
            shards[i] = refilled;
            vault.base_balance = vault.base_balance - amount;
        }
        i = i + 1;
    }
    proof {
        assert(s0.take(s0.len() as int) =~= s0);
    }
    Ok(())
}

} // verus!
