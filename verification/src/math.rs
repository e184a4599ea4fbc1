//! Ceiling division and powers of ten shared by the settlement and swap math.

use vstd::prelude::*;
use vstd::arithmetic::div_mod::{
    lemma_div_denominator, lemma_div_is_ordered, lemma_div_is_ordered_by_denominator,
    lemma_fundamental_div_mod, lemma_mod_bound,
};

verus! {

/// `ceil(a / b)` over the mathematical integers, for a non-negative
/// numerator and a positive denominator.
pub open spec fn spec_div_ceiling(a: int, b: int) -> int
    recommends
        a >= 0,
        b > 0,
{
    if a % b == 0 {
        a / b
    } else {
        a / b + 1
    }
}

/// Rounds the quotient up: the protocol always rounds division in its own
/// favor, never under-collecting.
pub fn div_ceiling(numerator: u128, denominator: u128) -> (r: u128)
    requires
        denominator > 0,
    ensures
        r == spec_div_ceiling(numerator as int, denominator as int),
{
    if numerator % denominator == 0 {
        numerator / denominator
    } else {
        proof {
            // A remainder exists, so the denominator is at least 2 and the
            // truncated quotient leaves room for the rounding increment.
            assert(denominator >= 2) by {
                if denominator == 1 {
                    lemma_fundamental_div_mod(numerator as int, 1);
                }
            }
            lemma_div_is_ordered_by_denominator(numerator as int, 2, denominator as int);
            lemma_div_is_ordered(numerator as int, u128::MAX as int, 2);
        }
        numerator / denominator + 1
    }
}

/// The ceiling quotient `q = spec_div_ceiling(a, b)` is the least integer
/// with `q * b >= a`: multiplying it back covers `a`, and one less does not.
pub proof fn lemma_div_ceiling_bounds(a: int, b: int)
    requires
        a >= 0,
        b > 0,
    ensures
        spec_div_ceiling(a, b) * b >= a,
        (spec_div_ceiling(a, b) - 1) * b < a,
{
    let q = a / b;
    let m = a % b;
    lemma_fundamental_div_mod(a, b);
    lemma_mod_bound(a, b);
    let c = spec_div_ceiling(a, b);
    assert(c * b >= a && (c - 1) * b < a) by (nonlinear_arith)
        requires
            a == b * q + m,
            0 <= m < b,
            c == (if m == 0 { q } else { q + 1 }),
    ;
}

/// `10^k` over the mathematical integers.
pub open spec fn pow10(k: nat) -> int
    decreases k,
{
    if k == 0 {
        1
    } else {
        10 * pow10((k - 1) as nat)
    }
}

/// Powers of ten are positive.
pub proof fn lemma_pow10_pos(k: nat)
    ensures
        pow10(k) >= 1,
    decreases k,
{
    if k > 0 {
        lemma_pow10_pos((k - 1) as nat);
    }
}

/// Dividing by `10^k` and then by `10` is dividing by `10^(k + 1)`.
pub proof fn lemma_div_pow10_step(x: int, k: nat)
    requires
        x >= 0,
    ensures
        (x / pow10(k)) / 10 == x / pow10(k + 1),
{
    lemma_pow10_pos(k);
    lemma_div_denominator(x, pow10(k), 10);
    assert(pow10(k) * 10 == pow10(k + 1)) by {
        assert(pow10(k + 1) == 10 * pow10(k));
    }
}

} // verus!
