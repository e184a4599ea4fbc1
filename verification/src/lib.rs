//! Verified core of an on-chain collateral-hedging protocol.
//!
//! A depositor keeps a floating-value base coin while being reimbursed in a
//! stable token whenever base coin is spent, at a price attested by an
//! external oracle. Custody of the base coin is sharded across fixed
//! sub-accounts that are periodically rebalanced from a central vault, and
//! accumulated stable tokens are converted back into the base coin through an
//! external constant-product exchange.
//!
//! The modules hold the price-ingestion state machine, the settlement rule,
//! the custody collect/distribute policies, and the swap-quote arithmetic,
//! each with a full functional contract.

pub mod custody;
pub mod errors;
pub mod math;
pub mod oracle;
pub mod price;
pub mod settlement;
pub mod swap;

pub use custody::{
    collect_from_pool, create_pool, distribute_to_pool, initialize, CentralVault, CustodyShard,
};
pub use errors::ErrorCode;
pub use math::div_ceiling;
pub use oracle::{get_pyth_current_price, normalize_price, update_price, OracleAttestation};
pub use price::PriceInfo;
pub use settlement::{neutralize, UserBalances};
pub use swap::{convert_to_sol, get_expected_output_amount, SwapQuote};
