//! Time-weighted yield accrual: a pure function of principal, rate and
//! elapsed seconds, using a fixed 365-day year.

use vstd::prelude::*;
use vstd::arithmetic::div_mod::{lemma_div_is_ordered, lemma_div_pos_is_pos};
use vstd::arithmetic::mul::{
    lemma_mul_inequality, lemma_mul_is_commutative, lemma_mul_nonnegative,
};
use crate::SECONDS_PER_YEAR;

verus! {

/// The engine-wide annual yield rate, in whole percent.
pub const ANNUAL_RATE_PERCENT: i128 = 10;

/// Yield accrued by `principal` over `elapsed` seconds at `rate` percent a
/// year: floor(principal * rate * elapsed / (100 * seconds per year)).
pub open spec fn spec_yield(principal: int, rate: int, elapsed: int) -> int {
    principal * rate * elapsed / (100 * (SECONDS_PER_YEAR as int))
}

/// Accrued yield is never negative.
pub proof fn lemma_yield_nonnegative(principal: int, rate: int, elapsed: int)
    requires
        principal >= 0,
        rate >= 0,
        elapsed >= 0,
    ensures
        spec_yield(principal, rate, elapsed) >= 0,
{
    lemma_mul_nonnegative(principal, rate);
    lemma_mul_nonnegative(principal * rate, elapsed);
    lemma_div_pos_is_pos(principal * rate * elapsed, 100 * (SECONDS_PER_YEAR as int));
}

/// Yield is non-decreasing in elapsed time, for fixed principal and rate.
pub proof fn lemma_yield_monotonic(principal: int, rate: int, e1: int, e2: int)
    requires
        principal >= 0,
        rate >= 0,
        0 <= e1,
        e1 <= e2,
    ensures
        spec_yield(principal, rate, e1) <= spec_yield(principal, rate, e2),
{
    let pr = principal * rate;
    lemma_mul_nonnegative(principal, rate);
    lemma_mul_inequality(e1, e2, pr);
    lemma_mul_is_commutative(e1, pr);
    lemma_mul_is_commutative(e2, pr);
    lemma_div_is_ordered(pr * e1, pr * e2, 100 * (SECONDS_PER_YEAR as int));
}

/// No time, no yield: a harvest performed immediately after the accrual
/// clock was reset returns zero.
pub proof fn lemma_yield_zero_elapsed(principal: int, rate: int)
    ensures
        spec_yield(principal, rate, 0) == 0,
{
    assert(principal * rate * 0 == 0);
}

/// Compute the accrued yield. The bounds on the products are what `i128`
/// forces; the engine's callers keep principals within `MAX_BALANCE` and
/// check elapsed time before calling.
pub fn compute_yield(principal: i128, rate: i128, elapsed: u64) -> (r: i128)
    requires
        0 <= principal,
        0 <= rate,
        principal * rate <= i128::MAX,
        principal * rate * elapsed <= i128::MAX,
    ensures
        r == spec_yield(principal as int, rate as int, elapsed as int),
        r >= 0,
{
    proof {
        lemma_mul_nonnegative(principal as int, rate as int);
        lemma_mul_nonnegative(principal * rate, elapsed as int);
        lemma_yield_nonnegative(principal as int, rate as int, elapsed as int);
    }
    let denominator: i128 = 100 * (SECONDS_PER_YEAR as i128);
    (principal * rate * (elapsed as i128)) / denominator
}

} // verus!
