//! The inflation-hedge ledger: per-account bucketed allocations, a default
//! split on deposit, a CPI-driven percentage retarget, and a proportional
//! withdrawal.

use vstd::prelude::*;
use std::collections::HashMap;
use crate::{LedgerError, MAX_BALANCE};
use crate::buckets::{spec_credit, spec_retarget, spec_withdraw, Allocation};
use crate::policy::{default_split, hedge_targets, spec_default_split, spec_hedge_targets};

verus! {

broadcast use vstd::std_specs::hash::group_hash_axioms;

/// The hedge ledger: bucketed allocations keyed by account identifier,
/// created lazily on first deposit. An absent account reads as all-zero
/// buckets.
pub struct InflationHedgeContract {
    allocations: HashMap<u64, Allocation>,
}

impl InflationHedgeContract {
    /// The allocation stored for `user`, or all-zero buckets if none is.
    pub closed spec fn alloc_of(self, user: u64) -> Allocation {
        if self.allocations@.contains_key(user) {
            self.allocations@[user]
        } else {
            Allocation { stable: 0, gold: 0, yield_bal: 0 }
        }
    }

    pub open spec fn wf(self) -> bool {
        forall|u: u64| (#[trigger] self.alloc_of(u)).wf()
    }

    /// A fresh ledger with no accounts: every bucket reads as zero.
    pub fn init() -> (r: InflationHedgeContract)
        ensures
            r.wf(),
            forall|u: u64| #[trigger] r.alloc_of(u) == (Allocation {
                stable: 0,
                gold: 0,
                yield_bal: 0,
            }),
    {
        InflationHedgeContract { allocations: HashMap::new() }
    }

    proof fn lemma_upsert(
        pre: InflationHedgeContract,
        post: InflationHedgeContract,
        user: u64,
        updated: Allocation,
    )
        requires
            pre.wf(),
            updated.wf(),
            post.allocations@ == pre.allocations@.insert(user, updated),
        ensures
            post.wf(),
            post.alloc_of(user) == updated,
            forall|u: u64| u != user ==> #[trigger] post.alloc_of(u) == pre.alloc_of(u),
    {
        assert forall|u: u64| (#[trigger] post.alloc_of(u)).wf() by {
            if u != user {
                assert(pre.alloc_of(u).wf());
            }
        }
    }

    fn get_alloc(&self, user: u64) -> (r: Allocation)
        ensures
            r == self.alloc_of(user),
    {
        match self.allocations.get(&user) {
            Some(alloc) => *alloc,
            None => Allocation::new(),
        }
    }

    /// Deposit `amount` for `user`, split across the buckets by the default
    /// percentages; the rounding dust goes to the stable bucket, so the
    /// account total grows by exactly `amount`. A non-positive amount is
    /// rejected with `InvalidAmount` and the ledger is unchanged.
    pub fn deposit(&mut self, user: u64, amount: i128) -> (r: Result<(), LedgerError>)
        requires
            old(self).wf(),
            amount > 0 ==> old(self).alloc_of(user).total() + amount <= MAX_BALANCE,
        ensures
            final(self).wf(),
            match r {
                Ok(()) => amount > 0 && final(self).alloc_of(user) == spec_credit(
                    old(self).alloc_of(user),
                    amount as int,
                    spec_default_split(),
                ) && final(self).alloc_of(user).total() == old(self).alloc_of(user).total()
                    + amount,
                Err(e) => e == LedgerError::InvalidAmount && amount <= 0 && final(self).alloc_of(
                    user,
                ) == old(self).alloc_of(user),
            },
            forall|u: u64| u != user ==> #[trigger] final(self).alloc_of(u) == old(self).alloc_of(
                u,
            ),
    {
        let alloc = self.get_alloc(user);
        match alloc.deposit(amount, default_split()) {
            Ok(updated) => {
                self.allocations.insert(user, updated);
                proof {
                    InflationHedgeContract::lemma_upsert(*old(self), *self, user, updated);
                }
                Ok(())
            },
            Err(e) => Err(e),
        }
    }

    /// Retarget `user`'s buckets to the tier selected by the CPI reading.
    /// The account total is unchanged; an account with a zero total is left
    /// untouched. Calling this twice with the same reading gives the same
    /// distribution both times.
    pub fn rebalance(&mut self, user: u64, cpi: i128)
        requires
            old(self).wf(),
        ensures
            final(self).wf(),
            final(self).alloc_of(user) == if old(self).alloc_of(user).total() > 0 {
                spec_retarget(old(self).alloc_of(user), spec_hedge_targets(cpi))
            } else {
                old(self).alloc_of(user)
            },
            final(self).alloc_of(user).total() == old(self).alloc_of(user).total(),
            forall|u: u64| u != user ==> #[trigger] final(self).alloc_of(u) == old(self).alloc_of(
                u,
            ),
    {
        let alloc = self.get_alloc(user);
        let total: i128 = alloc.stable + alloc.gold + alloc.yield_bal;
        if total > 0 {
            let updated = alloc.retarget(hedge_targets(cpi));
            self.allocations.insert(user, updated);
            proof {
                InflationHedgeContract::lemma_upsert(*old(self), *self, user, updated);
            }
        }
    }

    /// Withdraw `amount` from `user`'s buckets proportionally; the rounding
    /// dust left by the floored per-bucket debits is taken from the first
    /// buckets that still hold funds, so the account total shrinks by exactly
    /// `amount`. A non-positive amount is rejected with `InvalidAmount`, and
    /// an amount above the account total with `InsufficientBalance`; either
    /// failure leaves the ledger unchanged.
    pub fn withdraw(&mut self, user: u64, amount: i128) -> (r: Result<(), LedgerError>)
        requires
            old(self).wf(),
        ensures
            final(self).wf(),
            match r {
                Ok(()) => amount > 0 && amount <= old(self).alloc_of(user).total() && final(self).alloc_of(user) == spec_withdraw(old(self).alloc_of(user), amount as int)
                    && final(self).alloc_of(user).total() == old(self).alloc_of(user).total()
                    - amount,
                Err(LedgerError::InvalidAmount) => amount <= 0 && final(self).alloc_of(user)
                    == old(self).alloc_of(user),
                Err(LedgerError::InsufficientBalance) => amount > 0 && amount > old(self).alloc_of(
                    user,
                ).total() && final(self).alloc_of(user) == old(self).alloc_of(user),
                Err(LedgerError::FundsLocked) => false,
            },
            forall|u: u64| u != user ==> #[trigger] final(self).alloc_of(u) == old(self).alloc_of(
                u,
            ),
    {
        let alloc = self.get_alloc(user);
        match alloc.withdraw(amount) {
            Ok(updated) => {
                self.allocations.insert(user, updated);
                proof {
                    InflationHedgeContract::lemma_upsert(*old(self), *self, user, updated);
                }
                Ok(())
            },
            Err(e) => Err(e),
        }
    }

    /// Read `user`'s bucket allocation.
    pub fn get_allocation(&self, user: u64) -> (r: Allocation)
        ensures
            r == self.alloc_of(user),
    {
        self.get_alloc(user)
    }

    /// A hook for other components to trigger a rebalance; it behaves exactly
    /// as `rebalance` does.
    pub fn external_rebalance(&mut self, user: u64, cpi: i128)
        requires
            old(self).wf(),
        ensures
            final(self).wf(),
            final(self).alloc_of(user) == if old(self).alloc_of(user).total() > 0 {
                spec_retarget(old(self).alloc_of(user), spec_hedge_targets(cpi))
            } else {
                old(self).alloc_of(user)
            },
            final(self).alloc_of(user).total() == old(self).alloc_of(user).total(),
            forall|u: u64| u != user ==> #[trigger] final(self).alloc_of(u) == old(self).alloc_of(
                u,
            ),
    {
        self.rebalance(user, cpi)
    }
}

} // verus!
