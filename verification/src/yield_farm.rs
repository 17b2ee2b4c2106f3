//! The yield-farming ledger: per-account stakes with an accrual clock,
//! liquidity-pair positions, harvest of time-weighted yield, and a CPI-driven
//! route classification.

use vstd::prelude::*;
use std::collections::HashMap;
use crate::{LedgerError, MAX_BALANCE};
use crate::policy::{classify_route, spec_route, Route};
use crate::yield_calc::{compute_yield, spec_yield, ANNUAL_RATE_PERCENT};

verus! {

broadcast use vstd::std_specs::hash::group_hash_axioms;

/// One staking position: the principal and the start of the current accrual
/// window.
#[derive(Clone, Copy, Debug, PartialEq, Eq, Structural)]
pub struct Stake {
    pub principal: i128,
    pub last_accrual: u64,
}

impl Stake {
    pub open spec fn wf(self) -> bool {
        0 <= self.principal && self.principal <= MAX_BALANCE
    }

    /// Add `amount` to the stake and restart the accrual window at `now`;
    /// a non-positive amount is rejected with `InvalidAmount`.
    pub fn deposit(self, amount: i128, now: u64) -> (r: Result<Stake, LedgerError>)
        requires
            self.wf(),
            amount > 0 ==> self.principal + amount <= MAX_BALANCE,
        ensures
            match r {
                Ok(s) => amount > 0 && s == (Stake {
                    principal: (self.principal + amount) as i128,
                    last_accrual: now,
                }) && s.wf(),
                Err(e) => e == LedgerError::InvalidAmount && amount <= 0,
            },
    {
        if amount <= 0 {
            Err(LedgerError::InvalidAmount)
        } else {
            Ok(Stake { principal: self.principal + amount, last_accrual: now })
        }
    }

    /// Harvest the yield accrued since the window began at the engine-wide
    /// annual rate, and restart the window at `now`. A zero stake harvests
    /// zero and is left untouched; the principal never changes.
    pub fn harvest(self, now: u64) -> (r: (i128, Stake))
        requires
            self.wf(),
            self.principal > 0 ==> now >= self.last_accrual,
            self.principal * ANNUAL_RATE_PERCENT * (now - self.last_accrual) <= i128::MAX,
        ensures
            r.0 >= 0,
            r.1.wf(),
            self.principal == 0 ==> r.0 == 0 && r.1 == self,
            self.principal > 0 ==> r.0 == spec_yield(
                self.principal as int,
                ANNUAL_RATE_PERCENT as int,
                now - self.last_accrual,
            ) && r.1 == (Stake { principal: self.principal, last_accrual: now }),
    {
        if self.principal == 0 {
            return (0, self);
        }
        let elapsed: u64 = now - self.last_accrual;
        proof {
            vstd::arithmetic::mul::lemma_mul_nonnegative(
                self.principal as int,
                ANNUAL_RATE_PERCENT as int,
            );
            vstd::arithmetic::mul::lemma_mul_upper_bound(
                self.principal as int,
                MAX_BALANCE as int,
                ANNUAL_RATE_PERCENT as int,
                100,
            );
        }
        let amount = compute_yield(self.principal, ANNUAL_RATE_PERCENT, elapsed);
        (amount, Stake { principal: self.principal, last_accrual: now })
    }
}

/// One liquidity position: the two amounts contributed to the pool.
#[derive(Clone, Copy, Debug, PartialEq, Eq, Structural)]
pub struct LpPosition {
    pub amount_a: i128,
    pub amount_b: i128,
}

impl LpPosition {
    pub open spec fn wf(self) -> bool {
        &&& 0 <= self.amount_a && self.amount_a <= MAX_BALANCE
        &&& 0 <= self.amount_b && self.amount_b <= MAX_BALANCE
    }

    /// Add a contribution to both sides of the position; either side being
    /// non-positive is rejected with `InvalidAmount`.
    pub fn provide(self, amount_a: i128, amount_b: i128) -> (r: Result<LpPosition, LedgerError>)
        requires
            self.wf(),
            amount_a > 0 ==> self.amount_a + amount_a <= MAX_BALANCE,
            amount_b > 0 ==> self.amount_b + amount_b <= MAX_BALANCE,
        ensures
            match r {
                Ok(p) => amount_a > 0 && amount_b > 0 && p == (LpPosition {
                    amount_a: (self.amount_a + amount_a) as i128,
                    amount_b: (self.amount_b + amount_b) as i128,
                }) && p.wf(),
                Err(e) => e == LedgerError::InvalidAmount && (amount_a <= 0 || amount_b <= 0),
            },
    {
        if amount_a <= 0 || amount_b <= 0 {
            Err(LedgerError::InvalidAmount)
        } else {
            Ok(LpPosition { amount_a: self.amount_a + amount_a, amount_b: self.amount_b + amount_b })
        }
    }
}

/// The yield-farming ledger: stakes and liquidity positions keyed by account
/// identifier, created lazily. Absent entries read as zero.
pub struct DeFiYieldContract {
    stakes: HashMap<u64, Stake>,
    lp_positions: HashMap<u64, LpPosition>,
}

impl DeFiYieldContract {
    /// The stake stored for `user`, or a zero stake if none is.
    pub closed spec fn stake_of(self, user: u64) -> Stake {
        if self.stakes@.contains_key(user) {
            self.stakes@[user]
        } else {
            Stake { principal: 0, last_accrual: 0 }
        }
    }

    /// The liquidity position stored for `user`, or a zero position.
    pub closed spec fn lp_of(self, user: u64) -> LpPosition {
        if self.lp_positions@.contains_key(user) {
            self.lp_positions@[user]
        } else {
            LpPosition { amount_a: 0, amount_b: 0 }
        }
    }

    pub open spec fn wf(self) -> bool {
        &&& forall|u: u64| (#[trigger] self.stake_of(u)).wf()
        &&& forall|u: u64| (#[trigger] self.lp_of(u)).wf()
    }

    /// A fresh ledger: every stake and position reads as zero.
    pub fn init() -> (r: DeFiYieldContract)
        ensures
            r.wf(),
            forall|u: u64| #[trigger] r.stake_of(u) == (Stake { principal: 0, last_accrual: 0 }),
            forall|u: u64| #[trigger] r.lp_of(u) == (LpPosition { amount_a: 0, amount_b: 0 }),
    {
        DeFiYieldContract { stakes: HashMap::new(), lp_positions: HashMap::new() }
    }

    proof fn lemma_upsert_stake(
        pre: DeFiYieldContract,
        post: DeFiYieldContract,
        user: u64,
        updated: Stake,
    )
        requires
            pre.wf(),
            updated.wf(),
            post.stakes@ == pre.stakes@.insert(user, updated),
            post.lp_positions@ == pre.lp_positions@,
        ensures
            post.wf(),
            post.stake_of(user) == updated,
            forall|u: u64| u != user ==> #[trigger] post.stake_of(u) == pre.stake_of(u),
            forall|u: u64| #[trigger] post.lp_of(u) == pre.lp_of(u),
    {
        assert forall|u: u64| (#[trigger] post.stake_of(u)).wf() by {
            if u != user {
                assert(pre.stake_of(u).wf());
            }
        }
        assert forall|u: u64| (#[trigger] post.lp_of(u)).wf() by {
            assert(pre.lp_of(u).wf());
        }
    }

    proof fn lemma_upsert_lp(
        pre: DeFiYieldContract,
        post: DeFiYieldContract,
        user: u64,
        updated: LpPosition,
    )
        requires
            pre.wf(),
            updated.wf(),
            post.lp_positions@ == pre.lp_positions@.insert(user, updated),
            post.stakes@ == pre.stakes@,
        ensures
            post.wf(),
            post.lp_of(user) == updated,
            forall|u: u64| u != user ==> #[trigger] post.lp_of(u) == pre.lp_of(u),
            forall|u: u64| #[trigger] post.stake_of(u) == pre.stake_of(u),
    {
        assert forall|u: u64| (#[trigger] post.lp_of(u)).wf() by {
            if u != user {
                assert(pre.lp_of(u).wf());
            }
        }
        assert forall|u: u64| (#[trigger] post.stake_of(u)).wf() by {
            assert(pre.stake_of(u).wf());
        }
    }

    fn get_stake_entry(&self, user: u64) -> (r: Stake)
        ensures
            r == self.stake_of(user),
    {
        match self.stakes.get(&user) {
            Some(stake) => *stake,
            None => Stake { principal: 0, last_accrual: 0 },
        }
    }

    fn get_lp_entry(&self, user: u64) -> (r: LpPosition)
        ensures
            r == self.lp_of(user),
    {
        match self.lp_positions.get(&user) {
            Some(position) => *position,
            None => LpPosition { amount_a: 0, amount_b: 0 },
        }
    }

    /// Stake `amount` more for `user` and restart the accrual window at
    /// `now`: yield accrued before an additional deposit is forfeited, as the
    /// accrual clock is reset without a harvest. A non-positive amount is
    /// rejected with `InvalidAmount` and the ledger is unchanged.
    pub fn deposit_yield(&mut self, user: u64, amount: i128, now: u64) -> (r: Result<
        (),
        LedgerError,
    >)
        requires
            old(self).wf(),
            amount > 0 ==> old(self).stake_of(user).principal + amount <= MAX_BALANCE,
        ensures
            final(self).wf(),
            match r {
                Ok(()) => amount > 0 && final(self).stake_of(user) == (Stake {
                    principal: (old(self).stake_of(user).principal + amount) as i128,
                    last_accrual: now,
                }),
                Err(e) => e == LedgerError::InvalidAmount && amount <= 0 && final(self).stake_of(
                    user,
                ) == old(self).stake_of(user),
            },
            forall|u: u64| u != user ==> #[trigger] final(self).stake_of(u) == old(self).stake_of(
                u,
            ),
            forall|u: u64| #[trigger] final(self).lp_of(u) == old(self).lp_of(u),
    {
        let stake = self.get_stake_entry(user);
        match stake.deposit(amount, now) {
            Ok(updated) => {
                self.stakes.insert(user, updated);
                proof {
                    DeFiYieldContract::lemma_upsert_stake(*old(self), *self, user, updated);
                }
                Ok(())
            },
            Err(e) => Err(e),
        }
    }

    /// Record a liquidity contribution of `amount_a` and `amount_b` for
    /// `user`. Both amounts must be positive; otherwise `InvalidAmount` is
    /// returned and the ledger is unchanged.
    pub fn provide_liquidity(&mut self, user: u64, amount_a: i128, amount_b: i128) -> (r: Result<
        (),
        LedgerError,
    >)
        requires
            old(self).wf(),
            amount_a > 0 ==> old(self).lp_of(user).amount_a + amount_a <= MAX_BALANCE,
            amount_b > 0 ==> old(self).lp_of(user).amount_b + amount_b <= MAX_BALANCE,
        ensures
            final(self).wf(),
            match r {
                Ok(()) => amount_a > 0 && amount_b > 0 && final(self).lp_of(user) == (LpPosition {
                    amount_a: (old(self).lp_of(user).amount_a + amount_a) as i128,
                    amount_b: (old(self).lp_of(user).amount_b + amount_b) as i128,
                }),
                Err(e) => e == LedgerError::InvalidAmount && (amount_a <= 0 || amount_b <= 0)
                    && final(self).lp_of(user) == old(self).lp_of(user),
            },
            forall|u: u64| u != user ==> #[trigger] final(self).lp_of(u) == old(self).lp_of(u),
            forall|u: u64| #[trigger] final(self).stake_of(u) == old(self).stake_of(u),
    {
        let position = self.get_lp_entry(user);
        match position.provide(amount_a, amount_b) {
            Ok(updated) => {
                self.lp_positions.insert(user, updated);
                proof {
                    DeFiYieldContract::lemma_upsert_lp(*old(self), *self, user, updated);
                }
                Ok(())
            },
            Err(e) => Err(e),
        }
    }

    /// Harvest the yield accrued by `user`'s stake since the accrual window
    /// began, at the engine-wide annual rate, and restart the window at
    /// `now`. A zero stake harvests zero and changes nothing; the principal
    /// is never changed. An immediate second harvest therefore returns zero.
    pub fn harvest_yield(&mut self, user: u64, now: u64) -> (r: i128)
        requires
            old(self).wf(),
            old(self).stake_of(user).principal > 0 ==> now >= old(self).stake_of(
                user,
            ).last_accrual,
            old(self).stake_of(user).principal * ANNUAL_RATE_PERCENT * (now - old(self).stake_of(
                user,
            ).last_accrual) <= i128::MAX,
        ensures
            final(self).wf(),
            r >= 0,
            old(self).stake_of(user).principal == 0 ==> r == 0 && final(self).stake_of(user)
                == old(self).stake_of(user),
            old(self).stake_of(user).principal > 0 ==> r == spec_yield(
                old(self).stake_of(user).principal as int,
                ANNUAL_RATE_PERCENT as int,
                now - old(self).stake_of(user).last_accrual,
            ) && final(self).stake_of(user) == (Stake {
                principal: old(self).stake_of(user).principal,
                last_accrual: now,
            }),
            forall|u: u64| u != user ==> #[trigger] final(self).stake_of(u) == old(self).stake_of(
                u,
            ),
            forall|u: u64| #[trigger] final(self).lp_of(u) == old(self).lp_of(u),
    {
        let stake = self.get_stake_entry(user);
        let (amount, updated) = stake.harvest(now);
        self.stakes.insert(user, updated);
        proof {
            DeFiYieldContract::lemma_upsert_stake(*old(self), *self, user, updated);
        }
        amount
    }

    /// Classify where new funds would be routed for the given CPI reading.
    /// The classification is observational only: no balance moves.
    pub fn auto_allocate(&self, cpi: i128) -> (r: Route)
        ensures
            r == spec_route(cpi),
    {
        classify_route(cpi)
    }

    /// Read `user`'s stake as a pair of principal and accrual-window start.
    pub fn get_stake(&self, user: u64) -> (r: (i128, u64))
        ensures
            r.0 == self.stake_of(user).principal,
            r.1 == self.stake_of(user).last_accrual,
    {
        let stake = self.get_stake_entry(user);
        (stake.principal, stake.last_accrual)
    }
}

} // verus!
