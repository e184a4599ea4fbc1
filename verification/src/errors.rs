//! The closed set of failure kinds that the protocol's operations report.

use vstd::prelude::*;

verus! {

/// Every operation either commits all of its effects or aborts with exactly
/// one of these kinds; no partial update is ever visible.
#[derive(Clone, Copy, Debug, PartialEq, Eq, Structural)]
pub enum ErrorCode {
    /// The oracle attestation's structural tag, account-kind tag, or schema
    /// version is wrong: the feed account is misconfigured, not retryable.
    OracleDataInvalid,
    /// The oracle reports a non-trading status: transient, retry later.
    OraclePriceUnavailable,
    /// A settlement price matches neither the fresh current price nor the
    /// old price within its grace window.
    PriceMismatch,
    /// A single settlement's balance loss exceeds the per-operation ceiling.
    ExcessSettlementDelta,
    /// The vault cannot honor the full shard refill target.
    InsufficientCustodyFunds,
    /// A widening or narrowing conversion cannot fit its target width.
    ArithmeticOverflow,
}

} // verus!
