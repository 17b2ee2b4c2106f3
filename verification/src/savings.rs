//! The savings ledger: one balance per account, a withdrawal lock, and an
//! inflation-driven lock-extension policy. The lock expiry is a ratchet: no
//! operation ever moves it earlier.

use vstd::prelude::*;
use std::collections::HashMap;
use crate::{LedgerError, MAX_BALANCE, SECONDS_PER_YEAR};
use crate::policy::{extended_lock, spec_extended_lock};

verus! {

broadcast use vstd::std_specs::hash::group_hash_axioms;

/// One savings account: its balance and the time before which withdrawal is
/// forbidden.
#[derive(Clone, Copy, Debug, PartialEq, Eq, Structural)]
pub struct SavingsAccount {
    pub balance: i128,
    pub lock_until: u64,
}

impl SavingsAccount {
    pub open spec fn wf(self) -> bool {
        0 <= self.balance && self.balance <= MAX_BALANCE
    }

    pub fn empty() -> (r: SavingsAccount)
        ensures
            r == (SavingsAccount { balance: 0, lock_until: 0 }),
    {
        SavingsAccount { balance: 0, lock_until: 0 }
    }

    /// Credit a deposit. Non-positive amounts are rejected and leave the
    /// account untouched.
    pub fn deposit(self, amount: i128) -> (r: Result<SavingsAccount, LedgerError>)
        requires
            self.wf(),
            amount > 0 ==> self.balance + amount <= MAX_BALANCE,
        ensures
            match r {
                Ok(acct) => amount > 0 && acct.wf() && acct == (SavingsAccount {
                    balance: (self.balance + amount) as i128,
                    lock_until: self.lock_until,
                }),
                Err(e) => e == LedgerError::InvalidAmount && amount <= 0,
            },
    {
        if amount <= 0 {
            Err(LedgerError::InvalidAmount)
        } else {
            Ok(SavingsAccount { balance: self.balance + amount, lock_until: self.lock_until })
        }
    }

    /// Debit a withdrawal at time `now`. The amount must be positive, within
    /// the balance, and the lock must have expired; each failure names its
    /// reason and leaves the account untouched.
    pub fn withdraw(self, amount: i128, now: u64) -> (r: Result<SavingsAccount, LedgerError>)
        requires
            self.wf(),
        ensures
            match r {
                Ok(acct) => amount > 0 && amount <= self.balance && now >= self.lock_until
                    && acct.wf() && acct == (SavingsAccount {
                    balance: (self.balance - amount) as i128,
                    lock_until: self.lock_until,
                }),
                Err(LedgerError::InvalidAmount) => amount <= 0,
                Err(LedgerError::InsufficientBalance) => amount > 0 && amount > self.balance,
                Err(LedgerError::FundsLocked) => amount > 0 && amount <= self.balance && now
                    < self.lock_until,
            },
    {
        if amount <= 0 {
            Err(LedgerError::InvalidAmount)
        } else if self.balance < amount {
            Err(LedgerError::InsufficientBalance)
        } else if now < self.lock_until {
            Err(LedgerError::FundsLocked)
        } else {
            Ok(SavingsAccount { balance: self.balance - amount, lock_until: self.lock_until })
        }
    }

    /// Lock the account until `now + duration`, unless a later lock already
    /// stands: the expiry only ever moves forward.
    pub fn lock(self, duration: u64, now: u64) -> (r: SavingsAccount)
        requires
            now + duration <= u64::MAX,
        ensures
            r.balance == self.balance,
            r.lock_until == if now + duration > self.lock_until {
                (now + duration) as u64
            } else {
                self.lock_until
            },
            r.lock_until >= self.lock_until,
            r.lock_until >= now + duration,
    {
        let requested: u64 = now + duration;
        if requested > self.lock_until {
            SavingsAccount { balance: self.balance, lock_until: requested }
        } else {
            self
        }
    }

    /// Apply the inflation tier at time `now`: a high CPI reading ratchets
    /// the lock out to a year from now; the balance never changes.
    pub fn rebalance(self, cpi: i128, now: u64) -> (r: SavingsAccount)
        requires
            now + SECONDS_PER_YEAR <= u64::MAX,
        ensures
            r.balance == self.balance,
            r.lock_until == spec_extended_lock(self.lock_until, now, cpi),
            r.lock_until >= self.lock_until,
    {
        let lock_until = extended_lock(self.lock_until, now, cpi);
        SavingsAccount { balance: self.balance, lock_until }
    }
}

/// The savings ledger: accounts keyed by account identifier, created lazily
/// on first deposit. An absent account reads as a zero account.
pub struct SavingsContract {
    accounts: HashMap<u64, SavingsAccount>,
}

impl SavingsContract {
    /// The account stored for `user`, or the zero account if none is.
    pub closed spec fn account_of(self, user: u64) -> SavingsAccount {
        if self.accounts@.contains_key(user) {
            self.accounts@[user]
        } else {
            SavingsAccount { balance: 0, lock_until: 0 }
        }
    }

    pub open spec fn wf(self) -> bool {
        forall|u: u64| (#[trigger] self.account_of(u)).wf()
    }

    /// A fresh ledger with no accounts: every balance and lock reads as zero.
    pub fn init() -> (r: SavingsContract)
        ensures
            r.wf(),
            forall|u: u64| #[trigger] r.account_of(u) == (SavingsAccount {
                balance: 0,
                lock_until: 0,
            }),
    {
        SavingsContract { accounts: HashMap::new() }
    }

    proof fn lemma_upsert(pre: SavingsContract, post: SavingsContract, user: u64, updated: SavingsAccount)
        requires
            pre.wf(),
            updated.wf(),
            post.accounts@ == pre.accounts@.insert(user, updated),
        ensures
            post.wf(),
            post.account_of(user) == updated,
            forall|u: u64| u != user ==> #[trigger] post.account_of(u) == pre.account_of(u),
    {
        assert forall|u: u64| (#[trigger] post.account_of(u)).wf() by {
            if u != user {
                assert(pre.account_of(u).wf());
            }
        }
    }

    fn get_account(&self, user: u64) -> (r: SavingsAccount)
        ensures
            r == self.account_of(user),
    {
        match self.accounts.get(&user) {
            Some(acct) => *acct,
            None => SavingsAccount::empty(),
        }
    }

    /// Credit `amount` to `user`'s balance. Fails with `InvalidAmount` on a
    /// non-positive amount, leaving the ledger unchanged.
    pub fn deposit(&mut self, user: u64, amount: i128) -> (r: Result<(), LedgerError>)
        requires
            old(self).wf(),
            amount > 0 ==> old(self).account_of(user).balance + amount <= MAX_BALANCE,
        ensures
            final(self).wf(),
            match r {
                Ok(()) => amount > 0 && final(self).account_of(user) == (SavingsAccount {
                    balance: (old(self).account_of(user).balance + amount) as i128,
                    lock_until: old(self).account_of(user).lock_until,
                }),
                Err(e) => e == LedgerError::InvalidAmount && amount <= 0 && final(self).account_of(user) == old(self).account_of(user),
            },
            forall|u: u64| u != user ==> #[trigger] final(self).account_of(u) == old(self).account_of(u),
    {
        let acct = self.get_account(user);
        match acct.deposit(amount) {
            Ok(updated) => {
                self.accounts.insert(user, updated);
                proof {
                    SavingsContract::lemma_upsert(*old(self), *self, user, updated);
                }
                Ok(())
            },
            Err(e) => Err(e),
        }
    }

    /// Debit `amount` from `user`'s balance at time `now`, if the amount is
    /// positive, covered, and the lock has expired; every failure names its
    /// reason and leaves the ledger unchanged.
    pub fn withdraw(&mut self, user: u64, amount: i128, now: u64) -> (r: Result<(), LedgerError>)
        requires
            old(self).wf(),
        ensures
            final(self).wf(),
            match r {
                Ok(()) => amount > 0 && amount <= old(self).account_of(user).balance && now >= old(self).account_of(user).lock_until && final(self).account_of(user) == (SavingsAccount {
                    balance: (old(self).account_of(user).balance - amount) as i128,
                    lock_until: old(self).account_of(user).lock_until,
                }),
                Err(LedgerError::InvalidAmount) => amount <= 0 && final(self).account_of(user)
                    == old(self).account_of(user),
                Err(LedgerError::InsufficientBalance) => amount > 0 && amount > old(self).account_of(user).balance && final(self).account_of(user) == old(self).account_of(user),
                Err(LedgerError::FundsLocked) => amount > 0 && amount <= old(self).account_of(
                    user,
                ).balance && now < old(self).account_of(user).lock_until && final(self).account_of(user) == old(self).account_of(user),
            },
            forall|u: u64| u != user ==> #[trigger] final(self).account_of(u) == old(self).account_of(u),
    {
        let acct = self.get_account(user);
        match acct.withdraw(amount, now) {
            Ok(updated) => {
                self.accounts.insert(user, updated);
                proof {
                    SavingsContract::lemma_upsert(*old(self), *self, user, updated);
                }
                Ok(())
            },
            Err(e) => Err(e),
        }
    }

    /// Lock `user`'s funds until `now + duration`, never shortening an
    /// existing lock; returns the lock expiry now in force.
    pub fn lock_funds(&mut self, user: u64, duration: u64, now: u64) -> (r: u64)
        requires
            old(self).wf(),
            now + duration <= u64::MAX,
        ensures
            final(self).wf(),
            final(self).account_of(user).balance == old(self).account_of(user).balance,
            r == final(self).account_of(user).lock_until,
            r >= old(self).account_of(user).lock_until,
            r >= now + duration,
            r == if now + duration > old(self).account_of(user).lock_until {
                (now + duration) as u64
            } else {
                old(self).account_of(user).lock_until
            },
            forall|u: u64| u != user ==> #[trigger] final(self).account_of(u) == old(self).account_of(u),
    {
        let acct = self.get_account(user);
        let updated = acct.lock(duration, now);
        self.accounts.insert(user, updated);
        proof {
            SavingsContract::lemma_upsert(*old(self), *self, user, updated);
        }
        updated.lock_until
    }

    pub fn get_balance(&self, user: u64) -> (r: i128)
        ensures
            r == self.account_of(user).balance,
    {
        self.get_account(user).balance
    }

    pub fn get_lock_status(&self, user: u64) -> (r: u64)
        ensures
            r == self.account_of(user).lock_until,
    {
        self.get_account(user).lock_until
    }

    /// Apply the inflation tier for an oracle reading taken at time `now`:
    /// a CPI above the high-inflation threshold ratchets `user`'s lock out to
    /// a year from now. Balances never change, and no lock ever shortens.
    pub fn rebalance(&mut self, user: u64, cpi: i128, now: u64)
        requires
            old(self).wf(),
            now + SECONDS_PER_YEAR <= u64::MAX,
        ensures
            final(self).wf(),
            final(self).account_of(user).balance == old(self).account_of(user).balance,
            final(self).account_of(user).lock_until == spec_extended_lock(
                old(self).account_of(user).lock_until,
                now,
                cpi,
            ),
            final(self).account_of(user).lock_until >= old(self).account_of(user).lock_until,
            forall|u: u64| u != user ==> #[trigger] final(self).account_of(u) == old(self).account_of(u),
    {
        let acct = self.get_account(user);
        let updated = acct.rebalance(cpi, now);
        self.accounts.insert(user, updated);
        proof {
            SavingsContract::lemma_upsert(*old(self), *self, user, updated);
        }
    }
}

} // verus!
