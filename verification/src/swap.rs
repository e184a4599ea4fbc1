//! Constant-product swap quotes with fee, and the conversion plan that
//! bounds the external exchange call.

use vstd::prelude::*;
use vstd::bytes::{spec_u64_to_le_bytes, u64_to_le_bytes};
use vstd::arithmetic::mul::{lemma_mul_inequality, lemma_mul_nonnegative, lemma_mul_upper_bound};
use crate::math::{div_ceiling, lemma_div_ceiling_bounds, spec_div_ceiling};

verus! {

/// Numerator of the exchange venue's fee ratio.
pub const ORCA_SWAP_FEE_NUMERATOR: u128 = 30;

/// Denominator of the exchange venue's fee ratio.
pub const ORCA_SWAP_FEE_DENOMINATOR: u128 = 10000;

/// A computed swap quote: derived from the venue's reserve balances at call
/// time, never persisted, and used as the floor on what the venue must
/// deliver.
#[derive(Clone, Copy, Debug, PartialEq, Eq, Structural)]
pub struct SwapQuote {
    /// Stable-token amount handed to the venue.
    pub input_amount: u64,
    /// Least base-coin amount the venue must return.
    pub output_amount: u64,
}

/// Fee charged on `input_amount`, rounded up.
pub open spec fn spec_swap_fee(input_amount: int) -> int {
    spec_div_ceiling(
        input_amount * ORCA_SWAP_FEE_NUMERATOR,
        ORCA_SWAP_FEE_DENOMINATOR as int,
    )
}

/// The constant-product quote: the fee-reduced input joins the input
/// reserve, the product of the reserves is preserved rounding against the
/// caller, and the quote is what the output reserve loses.
pub open spec fn spec_expected_output(
    input_pool_balance: u64,
    output_pool_balance: u64,
    input_amount: u64,
) -> int {
    let effective_in = input_amount - spec_swap_fee(input_amount as int);
    let invariant_product = input_pool_balance * output_pool_balance;
    let next_input_balance = input_pool_balance + effective_in;
    let next_output_balance = spec_div_ceiling(invariant_product, next_input_balance);
    output_pool_balance - next_output_balance
}

/// When `a <= b * c`, the ceiling quotient of `a` by `b` is at most `c`.
proof fn lemma_div_ceiling_le(a: int, b: int, c: int)
    requires
        0 <= a,
        0 < b,
        0 <= c,
        a <= b * c,
    ensures
        spec_div_ceiling(a, b) <= c,
{
    lemma_div_ceiling_bounds(a, b);
    let q = spec_div_ceiling(a, b);
    assert(q <= c) by (nonlinear_arith)
        requires
            (q - 1) * b < a,
            a <= b * c,
            0 < b,
    ;
}

/// The fee never exceeds the input it is charged on.
proof fn lemma_fee_le_input(input_amount: u64)
    ensures
        0 <= spec_swap_fee(input_amount as int) <= input_amount,
{
    lemma_mul_nonnegative(input_amount as int, ORCA_SWAP_FEE_NUMERATOR as int);
    lemma_div_ceiling_bounds(
        input_amount * ORCA_SWAP_FEE_NUMERATOR,
        ORCA_SWAP_FEE_DENOMINATOR as int,
    );
    lemma_mul_inequality(
        ORCA_SWAP_FEE_NUMERATOR as int,
        ORCA_SWAP_FEE_DENOMINATOR as int,
        input_amount as int,
    );
    lemma_div_ceiling_le(
        input_amount * ORCA_SWAP_FEE_NUMERATOR,
        ORCA_SWAP_FEE_DENOMINATOR as int,
        input_amount as int,
    );
}

/// Quotes a constant-product swap with fee. The result never exceeds the
/// output reserve, so it always fits the asset's native width.
pub fn get_expected_output_amount(
    input_pool_balance: u64,
    output_pool_balance: u64,
    input_amount: u64,
) -> (r: u64)
    requires
        input_pool_balance + (input_amount - spec_swap_fee(input_amount as int)) > 0,
    ensures
        r == spec_expected_output(input_pool_balance, output_pool_balance, input_amount),
        r <= output_pool_balance,
{
    let ib: u128 = input_pool_balance as u128;
    let ob: u128 = output_pool_balance as u128;
    let ia: u128 = input_amount as u128;

    proof {
        lemma_fee_le_input(input_amount);
        lemma_mul_upper_bound(ia as int, u64::MAX as int, ORCA_SWAP_FEE_NUMERATOR as int, 30);
    }
    let of = div_ceiling(ia * ORCA_SWAP_FEE_NUMERATOR, ORCA_SWAP_FEE_DENOMINATOR);
    let mia = ia - of;

    proof {
        lemma_mul_upper_bound(ib as int, u64::MAX as int, ob as int, u64::MAX as int);
        lemma_mul_nonnegative(ib as int, ob as int);
    }
    let invariant_product = ib * ob;
    let next_ib = ib + mia;
    proof {
        // The product fits under the next input reserve times the output
        // reserve, so the rounded-up next output reserve stays at or below
        // the output reserve.
        lemma_mul_inequality(ib as int, next_ib as int, ob as int);
        lemma_div_ceiling_le(invariant_product as int, next_ib as int, ob as int);
    }
    let next_ob = div_ceiling(invariant_product, next_ib);

    let expected_oa = ob - next_ob;
    expected_oa as u64
}

/// Decides one conversion cycle from the vault's pending stable tokens:
/// nothing to do when the input or its quote is zero, otherwise the exact
/// amounts the exchange call is bounded by.
pub fn convert_to_sol(input_usdc: u64, orca_pool_usdc: u64, orca_pool_wsol: u64) -> (r: Option<
    SwapQuote,
>)
    requires
        orca_pool_usdc + (input_usdc - spec_swap_fee(input_usdc as int)) > 0,
    ensures
        ({
            let quote = spec_expected_output(orca_pool_usdc, orca_pool_wsol, input_usdc);
            match r {
                None => input_usdc == 0 || quote == 0,
                Some(q) => input_usdc != 0 && quote != 0 && q == (SwapQuote {
                    input_amount: input_usdc,
                    output_amount: quote as u64,
                }),
            }
        }),
{
    let output_wsol = get_expected_output_amount(orca_pool_usdc, orca_pool_wsol, input_usdc);
    if input_usdc == 0 || output_wsol == 0 {
        None
    } else {
        Some(SwapQuote { input_amount: input_usdc, output_amount: output_wsol })
    }
}

/// Serialized form of the exchange's swap instruction: a one-byte
/// instruction tag, then the input amount and the minimum output amount,
/// each as eight little-endian bytes.
pub open spec fn spec_swap_instruction_data(quote: SwapQuote) -> Seq<u8> {
    seq![1u8] + spec_u64_to_le_bytes(quote.input_amount) + spec_u64_to_le_bytes(
        quote.output_amount,
    )
}

/// Frames a quote into the exchange's swap instruction bytes.
pub fn swap_instruction_data(quote: &SwapQuote) -> (r: Vec<u8>)
    ensures
        r@ == spec_swap_instruction_data(*quote),
{
    let mut data: Vec<u8> = Vec::new();
    data.push(1u8);
    let mut input_bytes = u64_to_le_bytes(quote.input_amount);
    let mut output_bytes = u64_to_le_bytes(quote.output_amount);
    data.append(&mut input_bytes);
    data.append(&mut output_bytes);
    proof {
        assert(data@ =~= spec_swap_instruction_data(*quote));
    }
    data
}

} // verus!
