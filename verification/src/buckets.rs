//! The bucketed-balance model: a three-bucket allocation with a proportional
//! split on deposit, a percentage retarget on rebalance, and a proportional
//! debit on withdrawal.
//!
//! All three operations use floored integer division and then reconcile the
//! rounding dust so that the account total moves by exactly the requested
//! amount: a deposit or a retarget credits the dust to the stable bucket, and
//! a withdrawal debits the dust from the first buckets that still hold funds.

use vstd::prelude::*;
use vstd::arithmetic::div_mod::{
    lemma_div_is_ordered, lemma_div_multiples_vanish, lemma_div_pos_is_pos,
    lemma_fundamental_div_mod, lemma_mod_bound,
};
use vstd::arithmetic::mul::{
    lemma_mul_inequality, lemma_mul_is_commutative, lemma_mul_is_distributive_add,
    lemma_mul_is_distributive_sub, lemma_mul_nonnegative, lemma_mul_upper_bound,
};
use crate::{LedgerError, MAX_BALANCE};
use crate::policy::Percentages;

verus! {

/// One account's balances, split across the three named buckets.
#[derive(Clone, Copy, Debug, PartialEq, Eq, Structural)]
pub struct Allocation {
    pub stable: i128,
    pub gold: i128,
    pub yield_bal: i128,
}

impl Allocation {
    /// The account total is always derived from the buckets, never stored.
    pub open spec fn total(self) -> int {
        self.stable + self.gold + self.yield_bal
    }

    /// Every bucket is non-negative and the total stays within the range the
    /// proportional arithmetic can handle.
    pub open spec fn wf(self) -> bool {
        &&& self.stable >= 0
        &&& self.gold >= 0
        &&& self.yield_bal >= 0
        &&& self.total() <= MAX_BALANCE
    }

    pub fn new() -> (r: Allocation)
        ensures
            r == (Allocation { stable: 0, gold: 0, yield_bal: 0 }),
            r.wf(),
            r.total() == 0,
    {
        Allocation { stable: 0, gold: 0, yield_bal: 0 }
    }
}

/// The allocation after a deposit of `amount` split by `pcts`: gold and yield
/// get their floored shares and stable gets the rest, so the total grows by
/// exactly `amount`.
pub open spec fn spec_credit(a: Allocation, amount: int, pcts: Percentages) -> Allocation {
    let g = amount * pcts.gold / 100;
    let y = amount * pcts.yield_share / 100;
    Allocation {
        stable: (a.stable + amount - g - y) as i128,
        gold: (a.gold + g) as i128,
        yield_bal: (a.yield_bal + y) as i128,
    }
}

/// The allocation after a retarget to `pcts`: gold and yield are recomputed
/// as floored shares of the unchanged total and stable takes the rest.
pub open spec fn spec_retarget(a: Allocation, pcts: Percentages) -> Allocation {
    let g = a.total() * pcts.gold / 100;
    let y = a.total() * pcts.yield_share / 100;
    Allocation {
        stable: (a.total() - g - y) as i128,
        gold: g as i128,
        yield_bal: y as i128,
    }
}

/// The allocation after a proportional withdrawal of `amount`: each bucket is
/// debited its floored share of the amount, and the rounding dust left by the
/// floors is then debited from stable first, then gold, then yield, so the
/// total shrinks by exactly `amount`.
pub open spec fn spec_withdraw(a: Allocation, amount: int) -> Allocation {
    let t = a.total();
    let rs = a.stable - amount * a.stable / t;
    let rg = a.gold - amount * a.gold / t;
    let ry = a.yield_bal - amount * a.yield_bal / t;
    let rem = amount - (amount * a.stable / t + amount * a.gold / t + amount * a.yield_bal / t);
    let ds = if rem <= rs { rem } else { rs };
    let rem1 = rem - ds;
    let dg = if rem1 <= rg { rem1 } else { rg };
    let rem2 = rem1 - dg;
    Allocation {
        stable: (rs - ds) as i128,
        gold: (rg - dg) as i128,
        yield_bal: (ry - rem2) as i128,
    }
}

/// A floored percentage share is between 0 and the whole amount, and scaling
/// it back by 100 never exceeds the exact product.
proof fn lemma_share_bounds(a: int, p: int)
    requires
        a >= 0,
        0 <= p,
        p <= 100,
    ensures
        0 <= a * p / 100,
        a * p / 100 <= a,
        100 * (a * p / 100) <= a * p,
{
    lemma_mul_nonnegative(a, p);
    lemma_div_pos_is_pos(a * p, 100);
    lemma_mul_inequality(p, 100, a);
    lemma_mul_is_commutative(p, a);
    lemma_mul_is_commutative(100, a);
    lemma_div_is_ordered(a * p, 100 * a, 100);
    lemma_div_multiples_vanish(a, 100);
    lemma_fundamental_div_mod(a * p, 100);
    lemma_mod_bound(a * p, 100);
}

/// A floored proportional debit is between 0 and the bucket it debits, and
/// scaling it back by the total never exceeds the exact product.
proof fn lemma_prop_debit(amount: int, b: int, t: int)
    requires
        0 <= amount,
        amount <= t,
        0 <= b,
        t > 0,
    ensures
        0 <= amount * b / t,
        amount * b / t <= b,
        t * (amount * b / t) <= amount * b,
{
    lemma_mul_nonnegative(amount, b);
    lemma_div_pos_is_pos(amount * b, t);
    lemma_mul_inequality(amount, t, b);
    lemma_mul_is_commutative(t, b);
    lemma_div_is_ordered(amount * b, t * b, t);
    lemma_div_multiples_vanish(b, t);
    lemma_fundamental_div_mod(amount * b, t);
    lemma_mod_bound(amount * b, t);
}

/// The three floored proportional debits never exceed the requested amount
/// in sum: the dust they leave behind is non-negative.
proof fn lemma_debit_sum(amount: int, s: int, g: int, y: int)
    requires
        s >= 0,
        g >= 0,
        y >= 0,
        s + g + y > 0,
        0 <= amount,
        amount <= s + g + y,
    ensures
        amount * s / (s + g + y) + amount * g / (s + g + y) + amount * y / (s + g + y) <= amount,
{
    let t = s + g + y;
    let ds = amount * s / t;
    let dg = amount * g / t;
    let dy = amount * y / t;
    lemma_fundamental_div_mod(amount * s, t);
    lemma_fundamental_div_mod(amount * g, t);
    lemma_fundamental_div_mod(amount * y, t);
    lemma_mod_bound(amount * s, t);
    lemma_mod_bound(amount * g, t);
    lemma_mod_bound(amount * y, t);
    lemma_mul_is_distributive_add(amount, s, g);
    lemma_mul_is_distributive_add(amount, s + g, y);
    lemma_mul_is_commutative(amount, t);
    lemma_mul_is_distributive_add(t, ds, dg);
    lemma_mul_is_distributive_add(t, ds + dg, dy);
    lemma_mul_is_distributive_sub(t, amount, ds + dg + dy);
    assert(t * (amount - (ds + dg + dy)) >= 0);
    assert(amount - (ds + dg + dy) >= 0) by (nonlinear_arith)
        requires
            t > 0,
            t * (amount - (ds + dg + dy)) >= 0,
    ;
}

/// A deposit split grows the total by exactly the amount, keeps every bucket
/// non-negative, and credits each bucket at least its floored share.
pub proof fn lemma_credit(a: Allocation, amount: int, pcts: Percentages)
    requires
        a.wf(),
        pcts.wf(),
        amount > 0,
        a.total() + amount <= MAX_BALANCE,
    ensures
        spec_credit(a, amount, pcts).wf(),
        spec_credit(a, amount, pcts).total() == a.total() + amount,
        spec_credit(a, amount, pcts).gold == a.gold + amount * pcts.gold / 100,
        spec_credit(a, amount, pcts).yield_bal == a.yield_bal + amount * pcts.yield_share / 100,
        spec_credit(a, amount, pcts).stable >= a.stable + amount * pcts.stable / 100,
{
    let g = amount * pcts.gold / 100;
    let y = amount * pcts.yield_share / 100;
    lemma_share_bounds(amount, pcts.gold as int);
    lemma_share_bounds(amount, pcts.yield_share as int);
    lemma_share_bounds(amount, pcts.stable as int);
    lemma_mul_is_distributive_add(amount, pcts.gold as int, pcts.yield_share as int);
    lemma_mul_is_distributive_add(amount, pcts.stable as int, pcts.gold + pcts.yield_share);
    assert(amount * 100 == 100 * amount) by {
        lemma_mul_is_commutative(amount, 100);
    }
    assert(100 * (g + y) <= amount * (pcts.gold + pcts.yield_share));
    assert(amount * pcts.stable + amount * (pcts.gold + pcts.yield_share) == 100 * amount);
    assert(100 * (amount - g - y) >= amount * pcts.stable);
    assert(amount - g - y >= amount * pcts.stable / 100);
    assert(g + y <= amount);
}

/// A retarget keeps the total exactly unchanged and every bucket
/// non-negative.
pub proof fn lemma_retarget(a: Allocation, pcts: Percentages)
    requires
        a.wf(),
        pcts.wf(),
    ensures
        spec_retarget(a, pcts).wf(),
        spec_retarget(a, pcts).total() == a.total(),
        spec_retarget(a, pcts).gold == a.total() * pcts.gold / 100,
        spec_retarget(a, pcts).yield_bal == a.total() * pcts.yield_share / 100,
{
    let t = a.total();
    let g = t * pcts.gold / 100;
    let y = t * pcts.yield_share / 100;
    lemma_share_bounds(t, pcts.gold as int);
    lemma_share_bounds(t, pcts.yield_share as int);
    lemma_mul_is_distributive_add(t, pcts.gold as int, pcts.yield_share as int);
    lemma_mul_inequality(pcts.gold + pcts.yield_share, 100, t);
    lemma_mul_is_commutative(pcts.gold + pcts.yield_share, t);
    lemma_mul_is_commutative(100, t);
    assert(100 * (g + y) <= t * (pcts.gold + pcts.yield_share));
    assert(t * (pcts.gold + pcts.yield_share) <= 100 * t);
    assert(g + y <= t);
}

/// The result of a retarget depends only on the total and the target vector,
/// and a retarget preserves the total; so retargeting twice with the same
/// target vector gives the same allocation as retargeting once.
pub proof fn lemma_retarget_idempotent(a: Allocation, pcts: Percentages)
    requires
        a.wf(),
        pcts.wf(),
    ensures
        spec_retarget(spec_retarget(a, pcts), pcts) == spec_retarget(a, pcts),
{
    lemma_retarget(a, pcts);
    lemma_retarget(spec_retarget(a, pcts), pcts);
}

/// A proportional withdrawal shrinks the total by exactly the amount, keeps
/// every bucket non-negative, and debits each bucket at least its floored
/// share of the amount.
pub proof fn lemma_withdraw(a: Allocation, amount: int)
    requires
        a.wf(),
        0 < amount,
        amount <= a.total(),
    ensures
        spec_withdraw(a, amount).wf(),
        spec_withdraw(a, amount).total() == a.total() - amount,
        spec_withdraw(a, amount).stable <= a.stable - amount * a.stable / a.total(),
        spec_withdraw(a, amount).gold <= a.gold - amount * a.gold / a.total(),
        spec_withdraw(a, amount).yield_bal <= a.yield_bal - amount * a.yield_bal / a.total(),
{
    let t = a.total();
    lemma_prop_debit(amount, a.stable as int, t);
    lemma_prop_debit(amount, a.gold as int, t);
    lemma_prop_debit(amount, a.yield_bal as int, t);
    lemma_debit_sum(amount, a.stable as int, a.gold as int, a.yield_bal as int);
}

impl Allocation {
    /// Deposit `amount` into the buckets, split by `pcts`; the rounding dust
    /// is credited to the stable bucket so the total grows by exactly
    /// `amount`.
    pub fn credit(self, amount: i128, pcts: Percentages) -> (r: Allocation)
        requires
            self.wf(),
            pcts.wf(),
            amount > 0,
            self.total() + amount <= MAX_BALANCE,
        ensures
            r == spec_credit(self, amount as int, pcts),
            r.wf(),
            r.total() == self.total() + amount,
    {
        proof {
            lemma_credit(self, amount as int, pcts);
            lemma_mul_upper_bound(amount as int, MAX_BALANCE as int, pcts.gold as int, 100);
            lemma_mul_upper_bound(amount as int, MAX_BALANCE as int, pcts.yield_share as int, 100);
            lemma_mul_nonnegative(amount as int, pcts.gold as int);
            lemma_mul_nonnegative(amount as int, pcts.yield_share as int);
        }
        let g: i128 = amount * pcts.gold / 100;
        let y: i128 = amount * pcts.yield_share / 100;
        Allocation {
            stable: self.stable + (amount - g - y),
            gold: self.gold + g,
            yield_bal: self.yield_bal + y,
        }
    }

    /// Redistribute the unchanged total across the buckets according to
    /// `pcts`; the rounding dust goes to the stable bucket.
    pub fn retarget(self, pcts: Percentages) -> (r: Allocation)
        requires
            self.wf(),
            pcts.wf(),
        ensures
            r == spec_retarget(self, pcts),
            r.wf(),
            r.total() == self.total(),
    {
        proof {
            lemma_retarget(self, pcts);
            lemma_mul_upper_bound(self.total(), MAX_BALANCE as int, pcts.gold as int, 100);
            lemma_mul_upper_bound(self.total(), MAX_BALANCE as int, pcts.yield_share as int, 100);
            lemma_mul_nonnegative(self.total(), pcts.gold as int);
            lemma_mul_nonnegative(self.total(), pcts.yield_share as int);
        }
        let t: i128 = self.stable + self.gold + self.yield_bal;
        let g: i128 = t * pcts.gold / 100;
        let y: i128 = t * pcts.yield_share / 100;
        Allocation { stable: t - g - y, gold: g, yield_bal: y }
    }

    /// Deposit `amount`, split by `pcts`, rejecting a non-positive amount
    /// with `InvalidAmount` and leaving the buckets untouched.
    pub fn deposit(self, amount: i128, pcts: Percentages) -> (r: Result<Allocation, LedgerError>)
        requires
            self.wf(),
            pcts.wf(),
            amount > 0 ==> self.total() + amount <= MAX_BALANCE,
        ensures
            match r {
                Ok(a) => amount > 0 && a == spec_credit(self, amount as int, pcts) && a.wf()
                    && a.total() == self.total() + amount,
                Err(e) => e == LedgerError::InvalidAmount && amount <= 0,
            },
    {
        if amount <= 0 {
            Err(LedgerError::InvalidAmount)
        } else {
            Ok(self.credit(amount, pcts))
        }
    }

    /// Withdraw `amount` proportionally, rejecting a non-positive amount
    /// with `InvalidAmount` and one above the total with
    /// `InsufficientBalance`; either failure leaves the buckets untouched.
    pub fn withdraw(self, amount: i128) -> (r: Result<Allocation, LedgerError>)
        requires
            self.wf(),
        ensures
            match r {
                Ok(a) => amount > 0 && amount <= self.total() && a == spec_withdraw(
                    self,
                    amount as int,
                ) && a.wf() && a.total() == self.total() - amount,
                Err(LedgerError::InvalidAmount) => amount <= 0,
                Err(LedgerError::InsufficientBalance) => amount > 0 && amount > self.total(),
                Err(LedgerError::FundsLocked) => false,
            },
    {
        if amount <= 0 {
            Err(LedgerError::InvalidAmount)
        } else if self.stable + self.gold + self.yield_bal < amount {
            Err(LedgerError::InsufficientBalance)
        } else {
            Ok(self.withdraw_proportional(amount))
        }
    }

    /// Withdraw `amount` proportionally from the buckets; the rounding dust
    /// left by the floored per-bucket debits is taken from stable first, then
    /// gold, then yield, so the total shrinks by exactly `amount`.
    pub fn withdraw_proportional(self, amount: i128) -> (r: Allocation)
        requires
            self.wf(),
            0 < amount,
            amount <= self.total(),
        ensures
            r == spec_withdraw(self, amount as int),
            r.wf(),
            r.total() == self.total() - amount,
    {
        proof {
            lemma_withdraw(self, amount as int);
            lemma_mul_upper_bound(amount as int, MAX_BALANCE as int, self.stable as int, MAX_BALANCE as int);
            lemma_mul_upper_bound(amount as int, MAX_BALANCE as int, self.gold as int, MAX_BALANCE as int);
            lemma_mul_upper_bound(amount as int, MAX_BALANCE as int, self.yield_bal as int, MAX_BALANCE as int);
            lemma_mul_nonnegative(amount as int, self.stable as int);
            lemma_mul_nonnegative(amount as int, self.gold as int);
            lemma_mul_nonnegative(amount as int, self.yield_bal as int);
        }
        let t: i128 = self.stable + self.gold + self.yield_bal;
        let ds: i128 = amount * self.stable / t;
        let dg: i128 = amount * self.gold / t;
        let dy: i128 = amount * self.yield_bal / t;
        let rs: i128 = self.stable - ds;
        let rg: i128 = self.gold - dg;
        let ry: i128 = self.yield_bal - dy;
        let rem: i128 = amount - (ds + dg + dy);
        let take_s: i128 = if rem <= rs { rem } else { rs };
        let rem1: i128 = rem - take_s;
        let take_g: i128 = if rem1 <= rg { rem1 } else { rg };
        let rem2: i128 = rem1 - take_g;
        Allocation { stable: rs - take_s, gold: rg - take_g, yield_bal: ry - rem2 }
    }
}

} // verus!
