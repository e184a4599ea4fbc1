//! Settlement ("neutralize"): reconciles a realized base-coin loss against
//! an attested price by charging the user stable tokens into one custody
//! shard and refunding the lost base coin out of it.

use vstd::prelude::*;
use vstd::arithmetic::div_mod::lemma_div_is_ordered;
use vstd::arithmetic::mul::{lemma_mul_nonnegative, lemma_mul_upper_bound};
use crate::custody::CustodyShard;
use crate::errors::ErrorCode;
use crate::math::{div_ceiling, spec_div_ceiling};
use crate::price::PriceInfo;

verus! {

/// Per-operation ceiling on the base-coin loss one settlement may cover;
/// bounds the worst-case exposure of a single call.
pub const MAX_ACCEPTABLE_DIFF_LAMPORTS: u64 = 50_000;

/// Base-coin sub-units per whole coin; prices are quoted per whole coin.
pub const LAMPORTS_PER_SOL: u64 = 1_000_000_000;

/// The caller's two balances that a settlement touches.
#[derive(Clone, Copy, Debug, PartialEq, Eq, Structural)]
pub struct UserBalances {
    /// Base-coin balance.
    pub base_balance: u64,
    /// Stable-token balance.
    pub stable_balance: u64,
}

/// The base-coin loss a settlement covers: how far the balance fell below
/// its pre-transaction snapshot, and zero if it did not fall.
pub open spec fn spec_diff(pre_tx_balance: u64, current_balance: u64) -> int {
    if current_balance < pre_tx_balance {
        pre_tx_balance - current_balance
    } else {
        0
    }
}

/// Stable-token charge for a loss of `diff` at `price` micro-units per
/// whole coin, rounded up so the protocol never under-collects.
pub open spec fn spec_required_usdc(price: u64, diff: int) -> int {
    spec_div_ceiling(price * diff, LAMPORTS_PER_SOL as int)
}

/// The charge for a loss within the per-operation ceiling always fits the
/// stable token's width.
proof fn lemma_required_usdc_fits(price: u64, diff: int)
    requires
        0 <= diff <= MAX_ACCEPTABLE_DIFF_LAMPORTS,
    ensures
        0 <= spec_required_usdc(price, diff) <= u64::MAX,
{
    let a = price * diff;
    let b = LAMPORTS_PER_SOL as int;
    lemma_mul_upper_bound(price as int, u64::MAX as int, diff, MAX_ACCEPTABLE_DIFF_LAMPORTS as int);
    lemma_mul_nonnegative(price as int, diff);
    lemma_div_is_ordered(a, u64::MAX * MAX_ACCEPTABLE_DIFF_LAMPORTS, b);
}

/// Settles a realized base-coin loss against the price ledger.
///
/// With no loss (the balance did not fall below its snapshot) the call
/// succeeds and changes nothing. A loss above the per-operation ceiling is
/// rejected outright, as is a claimed price that matches neither the fresh
/// current price nor the old price within its grace window. Otherwise the
/// stable-token charge — computed at the ledger's current price, rounded
/// up — moves from the user into the shard, and the lost base coin moves
/// from the shard back to the user, both or neither.
///
/// The preconditions ask only that the three transfers the committed path
/// performs cannot themselves fail: the host aborts the enclosing
/// operation wholesale when one does.
pub fn neutralize(
    price_info: &PriceInfo,
    shard: &mut CustodyShard,
    user: &mut UserBalances,
    price: u64,
    pre_tx_lamports: u64,
    now: i64,
) -> (r: Result<(), ErrorCode>)
    requires
        ({
            let diff = spec_diff(pre_tx_lamports, old(user).base_balance);
            let required = spec_required_usdc(price_info.current_usdc_per_sol_price, diff);
            (0 < diff <= MAX_ACCEPTABLE_DIFF_LAMPORTS && price_info.spec_price_valid(
                price,
                now as int,
            )) ==> (old(user).stable_balance >= required && old(shard).stable_balance + required
                <= u64::MAX && old(shard).base_balance >= diff)
        }),
    ensures
        ({
            let diff = spec_diff(pre_tx_lamports, old(user).base_balance);
            let required = spec_required_usdc(price_info.current_usdc_per_sol_price, diff);
            match r {
                Ok(()) => if diff == 0 {
                    *final(shard) == *old(shard) && *final(user) == *old(user)
                } else {
                    diff <= MAX_ACCEPTABLE_DIFF_LAMPORTS && price_info.spec_price_valid(
                        price,
                        now as int,
                    ) && *final(user) == (UserBalances {
                        base_balance: pre_tx_lamports,
                        stable_balance: (old(user).stable_balance - required) as u64,
                    }) && *final(shard) == (CustodyShard {
                        base_balance: (old(shard).base_balance - diff) as u64,
                        stable_balance: (old(shard).stable_balance + required) as u64,
                        ..*old(shard)
                    })
                },
                Err(e) => *final(shard) == *old(shard) && *final(user) == *old(user) && (
                if diff > MAX_ACCEPTABLE_DIFF_LAMPORTS {
                    e == ErrorCode::ExcessSettlementDelta
                } else {
                    0 < diff && !price_info.spec_price_valid(price, now as int)
                        && e == ErrorCode::PriceMismatch
                }),
            }
        }),
{
    let current_lamports = user.base_balance;
    if current_lamports >= pre_tx_lamports {
        return Ok(());
    }
    let diff_lamports = pre_tx_lamports - current_lamports;
    if diff_lamports > MAX_ACCEPTABLE_DIFF_LAMPORTS {
        return Err(ErrorCode::ExcessSettlementDelta);
    }
    if !price_info.is_valid_price(price, now) {
        return Err(ErrorCode::PriceMismatch);
    }
    proof {
        lemma_required_usdc_fits(price_info.current_usdc_per_sol_price, diff_lamports as int);
    }
    let required_usdc_wide = div_ceiling(
        (price_info.current_usdc_per_sol_price as u128) * (diff_lamports as u128),
        LAMPORTS_PER_SOL as u128,
    );
    let required_usdc = required_usdc_wide as u64;
    user.stable_balance = user.stable_balance - required_usdc;
    shard.stable_balance = shard.stable_balance + required_usdc;
    shard.base_balance = shard.base_balance - diff_lamports;
    user.base_balance = user.base_balance + diff_lamports;
    Ok(())
}

} // verus!
