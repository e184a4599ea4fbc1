//! The oracle adapter: validates an external price attestation, rebases the
//! reported price to micro-units of the stable token, applies the protocol's
//! rate markup, and drives the price-ledger transition.

use vstd::prelude::*;
use crate::errors::ErrorCode;
use crate::math::{pow10, lemma_pow10_pos, lemma_div_pow10_step};
use crate::price::{PriceInfo, GRACE_PERIOD};

verus! {

/// Multiplier applied to every normalized oracle price before it enters the
/// ledger: the protocol deliberately charges at twice the attested rate.
pub const PRICE_MARKUP: u64 = 2;

/// The fields this protocol consumes from one oracle price attestation,
/// as plain values.
#[derive(Clone, Copy, Debug, PartialEq, Eq, Structural)]
pub struct OracleAttestation {
    /// Structural tag that every well-formed feed account carries.
    pub magic: u32,
    /// Account-kind tag; only the price kind is consumed here.
    pub account_type: u32,
    /// Schema version of the feed account.
    pub version: u32,
    /// Whether the aggregate price is in trading status and thus usable.
    pub trading: bool,
    /// Aggregate price, scaled by ten to the `exponent`.
    pub price: i64,
    /// Confidence interval of the aggregate price, same scale.
    pub confidence: u64,
    /// Decimal exponent of `price` and `confidence`.
    pub exponent: i32,
}

#[verifier::external_type_specification]
#[verifier::external_body]
pub struct ExPythPrice(pyth_client::Price);

/// Relies on pyth_client::MAGIC, the structural tag of every pyth account.
#[verifier::external_body]
fn pyth_magic() -> (r: u32)
    ensures
        r == 0xa1b2c3d4u32,
{
    pyth_client::MAGIC
}

/// Relies on pyth_client::VERSION_2, the supported feed schema version.
#[verifier::external_body]
fn pyth_version() -> (r: u32)
    ensures
        r == 2u32,
{
    pyth_client::VERSION_2
}

/// Relies on pyth_client::AccountType: Price is its fourth variant, so a
/// price account's kind tag is 3.
#[verifier::external_body]
fn pyth_price_account_type() -> (r: u32)
    ensures
        r == 3u32,
{
    pyth_client::AccountType::Price as u32
}

/// Relies on pyth_client::Price's public fields: copies the consumed header
/// and aggregate fields out as plain values. Nothing is assumed about the
/// values themselves; every caller must handle every outcome.
#[verifier::external_body]
fn oracle_attestation_of(p: &pyth_client::Price) -> (r: OracleAttestation) {
    OracleAttestation {
        magic: p.magic,
        account_type: p.atype,
        version: p.ver,
        trading: match p.agg.status {
            pyth_client::PriceStatus::Trading => true,
            _ => false,
        },
        price: p.agg.price,
        confidence: p.agg.conf,
        exponent: p.expo,
    }
}

/// An attestation whose structural tag, account-kind tag and schema version
/// all match the oracle's published constants.
pub open spec fn attestation_structurally_valid(att: OracleAttestation) -> bool {
    att.magic == 0xa1b2c3d4u32 && att.account_type == 3u32 && att.version == 2u32
}

/// Hands out the aggregate price triple only while the oracle reports
/// trading status; any other status yields nothing.
pub fn get_pyth_current_price(att: &OracleAttestation) -> (r: Option<(i64, u64, i32)>)
    ensures
        r == (if att.trading {
            Some((att.price, att.confidence, att.exponent))
        } else {
            None::<(i64, u64, i32)>
        }),
{
    if att.trading {
        Some((att.price, att.confidence, att.exponent))
    } else {
        None
    }
}

/// `price`, reported at decimal exponent `exponent`, rebased to exactly six
/// fractional decimal digits: multiplied by ten for every step the exponent
/// sits above minus six, divided (truncating toward zero, as the adapter
/// does) for every step below.
pub open spec fn spec_rebased(price: int, exponent: int) -> int {
    if exponent >= -6 {
        price * pow10((exponent + 6) as nat)
    } else if price >= 0 {
        price / pow10((-6 - exponent) as nat)
    } else {
        -((-price) / pow10((-6 - exponent) as nat))
    }
}

/// Rebases an attested price to micro-units. Succeeds exactly when the
/// rebased value fits the ledger's unsigned width.
#[verifier::loop_isolation(false)]
pub fn normalize_price(price: i64, exponent: i32) -> (r: Result<u64, ErrorCode>)
    ensures
        (match r {
            Ok(m) => 0 <= spec_rebased(price as int, exponent as int) <= u64::MAX
                && m == spec_rebased(price as int, exponent as int),
            Err(e) => e == ErrorCode::ArithmeticOverflow
                && !(0 <= spec_rebased(price as int, exponent as int) <= u64::MAX),
        }),
{
    let negative = price < 0;
    let mut mag: u128 = if negative {
        (-(price as i128)) as u128
    } else {
        price as u128
    };
    let ghost mag0 = mag as int;
    proof {
        assert(mag0 == if price < 0 { -(price as int) } else { price as int });
    }
    if exponent < -6 {
        let mut e: i64 = exponent as i64;
        while e < -6
            invariant
                exponent as int <= e as int <= -6,
                mag as int == mag0 / pow10((e - exponent) as nat),
            decreases -6 - e,
        {
            proof {
                lemma_div_pow10_step(mag0, (e - exponent) as nat);
            }
            mag = mag / 10;
            e = e + 1;
        }
        assert(mag as int == mag0 / pow10((-6 - exponent) as nat));
    } else if exponent > -6 {
        let mut e: i64 = exponent as i64;
        while e > -6
            invariant
                -6 <= e as int <= exponent as int,
                mag * pow10((e + 6) as nat) == mag0 * pow10((exponent + 6) as nat),
            decreases e + 6,
        {
            if mag > u128::MAX / 10 {
                proof {
                    let ghost p = pow10((e + 6) as nat);
                    lemma_pow10_pos((e + 5) as nat);
                    assert(p == 10 * pow10((e + 5) as nat));
                    assert(p >= 10);
                    assert(mag * p >= mag * 10) by (nonlinear_arith)
                        requires
                            p >= 10,
                            mag >= 0,
                    ;
                    assert(mag0 * pow10((exponent + 6) as nat) > u64::MAX);
                    if negative {
                        assert((-mag0) * pow10((exponent + 6) as nat) == -(mag0 * pow10(
                            (exponent + 6) as nat,
                        ))) by (nonlinear_arith);
                    }
                }
                return Err(ErrorCode::ArithmeticOverflow);
            }
            proof {
                let ghost p5 = pow10((e + 5) as nat);
                assert(pow10((e + 6) as nat) == 10 * p5);
                assert((mag * 10) * p5 == mag * (10 * p5)) by (nonlinear_arith);
            }
            mag = mag * 10;
            e = e - 1;
        }
        assert(mag as int == mag0 * pow10((exponent + 6) as nat));
    }
    proof {
        if negative && exponent >= -6 {
            assert((-mag0) * pow10((exponent + 6) as nat) == -(mag0 * pow10(
                (exponent + 6) as nat,
            ))) by (nonlinear_arith);
        }
        assert(spec_rebased(price as int, exponent as int) == if negative {
            -(mag as int)
        } else {
            mag as int
        });
    }
    if negative {
        if mag == 0 {
            Ok(0)
        } else {
            Err(ErrorCode::ArithmeticOverflow)
        }
    } else {
        if mag <= 0xffff_ffff_ffff_ffffu128 {
            Ok(mag as u64)
        } else {
            Err(ErrorCode::ArithmeticOverflow)
        }
    }
}

/// Validates one oracle attestation and, when it is usable, rebases and
/// marks up its price and records it in the ledger at time `now`. On any
/// failure the ledger is left untouched.
pub fn update_price(price_info: &mut PriceInfo, att: &OracleAttestation, now: i64) -> (r: Result<
    (),
    ErrorCode,
>)
    requires
        old(price_info).wf(),
        0 <= now <= i64::MAX - GRACE_PERIOD,
    ensures
        final(price_info).wf(),
        (match r {
            Ok(()) => attestation_structurally_valid(*att) && att.trading && 0 <= spec_rebased(
                att.price as int,
                att.exponent as int,
            ) && PRICE_MARKUP * spec_rebased(att.price as int, att.exponent as int) <= u64::MAX
                && *final(price_info) == old(price_info).spec_updated(
                (PRICE_MARKUP * spec_rebased(att.price as int, att.exponent as int)) as u64,
                now,
            ),
            Err(e) => *final(price_info) == *old(price_info) && (
            if !attestation_structurally_valid(*att) {
                e == ErrorCode::OracleDataInvalid
            } else if !att.trading {
                e == ErrorCode::OraclePriceUnavailable
            } else {
                e == ErrorCode::ArithmeticOverflow && !(0 <= spec_rebased(
                    att.price as int,
                    att.exponent as int,
                ) && PRICE_MARKUP * spec_rebased(att.price as int, att.exponent as int)
                    <= u64::MAX)
            }),
        }),
{
    if att.magic != pyth_magic() || att.account_type != pyth_price_account_type() || att.version
        != pyth_version() {
        return Err(ErrorCode::OracleDataInvalid);
    }
    let maybe_price = get_pyth_current_price(att);
    match maybe_price {
        Some((p, _confidence, expo)) => {
            let micro_usdc = match normalize_price(p, expo) {
                Ok(v) => v,
                Err(e) => { return Err(e); },
            };
            let marked_up = (micro_usdc as u128) * (PRICE_MARKUP as u128);
            if marked_up > 0xffff_ffff_ffff_ffffu128 {
                return Err(ErrorCode::ArithmeticOverflow);
            }
            price_info.apply_update(marked_up as u64, now);
            Ok(())
        },
        None => Err(ErrorCode::OraclePriceUnavailable),
    }
}

/// Reads one pyth price attestation and runs the full update. The
/// attestation's contents are outside the verifier's view, so the contract
/// promises only what holds of every outcome: a failed update leaves the
/// ledger untouched, and a successful one stamps it at `now`.
pub fn update_price_from_pyth(price_info: &mut PriceInfo, pyth_price: &pyth_client::Price, now: i64) -> (r:
    Result<(), ErrorCode>)
    requires
        old(price_info).wf(),
        0 <= now <= i64::MAX - GRACE_PERIOD,
    ensures
        final(price_info).wf(),
        r.is_err() ==> *final(price_info) == *old(price_info),
        r.is_ok() ==> final(price_info).current_usdc_per_sol_price_updated == now
            && final(price_info).old_usdc_per_sol_price == old(
            price_info,
        ).current_usdc_per_sol_price && final(price_info).old_usdc_per_sol_price_grace_period == (
        if now - old(price_info).current_usdc_per_sol_price_updated
            <= crate::price::MAX_ACCEPTABLE_UPDATE_INTERVAL {
            now + GRACE_PERIOD
        } else {
            0
        }),
{
    let att = oracle_attestation_of(pyth_price);
    update_price(price_info, &att, now)
}

} // verus!
