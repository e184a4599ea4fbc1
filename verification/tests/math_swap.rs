use kurayashiki::{convert_to_sol, div_ceiling, get_expected_output_amount, SwapQuote};
use kurayashiki::swap::swap_instruction_data;

#[test]
fn div_ceiling_exact_multiple() {
    assert_eq!(div_ceiling(10, 5), 2);
    assert_eq!(div_ceiling(0, 3), 0);
    assert_eq!(div_ceiling(1_000_000_000, 1), 1_000_000_000);
}

#[test]
fn div_ceiling_rounds_up() {
    assert_eq!(div_ceiling(11, 5), 3);
    assert_eq!(div_ceiling(1, 1_000_000_000), 1);
    assert_eq!(div_ceiling(u64::MAX as u128, 2), (u64::MAX as u128) / 2 + 1);
}

#[test]
fn div_ceiling_is_least_covering_quotient() {
    // The defining pair of bounds, checked on concrete values: the ceiling
    // quotient covers the numerator, one less does not.
    for (a, b) in [(7u128, 3u128), (12, 4), (1, 9), (0, 2), (100, 7)] {
        let q = div_ceiling(a, b);
        assert!(q * b >= a);
        if q > 0 {
            assert!((q - 1) * b < a);
        }
    }
}

#[test]
fn swap_quote_matches_constant_product_with_fee() {
    // fee = ceil(10_000 * 30 / 10_000) = 30, effective input 9_970,
    // next output reserve = ceil(10^12 / 1_009_970) = 990_129.
    let out = get_expected_output_amount(1_000_000, 1_000_000, 10_000);
    assert_eq!(out, 9_871);
    // Price impact: strictly less than the fee-reduced input.
    assert!(out < 9_970);
}

#[test]
fn swap_quote_small_input_consumed_by_fee() {
    // fee = ceil(1 * 30 / 10_000) = 1, so nothing effective joins the pool
    // and the quote is zero.
    assert_eq!(get_expected_output_amount(1_000_000, 1_000_000, 1), 0);
}

#[test]
fn convert_plan_zero_input_is_noop() {
    assert_eq!(convert_to_sol(0, 1_000_000, 1_000_000), None);
}

#[test]
fn convert_plan_zero_quote_is_noop() {
    assert_eq!(convert_to_sol(1, 1_000_000, 1_000_000), None);
}

#[test]
fn convert_plan_bounds_the_exchange_call() {
    let quote = convert_to_sol(10_000, 1_000_000, 1_000_000);
    assert_eq!(quote, Some(SwapQuote { input_amount: 10_000, output_amount: 9_871 }));
}

#[test]
fn swap_instruction_bytes_are_tag_then_amounts() {
    let quote = SwapQuote { input_amount: 0x0102030405060708, output_amount: 2 };
    let data = swap_instruction_data(&quote);
    let mut expected = vec![1u8];
    expected.extend_from_slice(&[0x08, 0x07, 0x06, 0x05, 0x04, 0x03, 0x02, 0x01]);
    expected.extend_from_slice(&[2, 0, 0, 0, 0, 0, 0, 0]);
    assert_eq!(data, expected);
}
