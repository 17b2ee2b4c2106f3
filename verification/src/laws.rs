//! Engine-wide laws over whole operation sequences, stated against the same
//! spec-level transitions the executable operations are proved to implement.

use vstd::prelude::*;
use crate::MAX_BALANCE;
use crate::SECONDS_PER_YEAR;
use crate::buckets::{lemma_credit, lemma_withdraw, spec_credit, spec_withdraw, Allocation};
use crate::policy::{spec_default_split, HIGH_INFLATION_CPI};

verus! {

/// One balance-moving request against a bucketed account.
pub enum FlowOp {
    Deposit(i128),
    Withdraw(i128),
}

/// Whether the engine applies the request in state `a`: a deposit must be
/// positive and keep the total in range; a withdrawal must be positive and
/// covered. A refused request leaves the account unchanged.
pub open spec fn flow_applies(a: Allocation, op: FlowOp) -> bool {
    match op {
        FlowOp::Deposit(amt) => amt > 0 && a.total() + amt <= MAX_BALANCE,
        FlowOp::Withdraw(amt) => amt > 0 && amt <= a.total(),
    }
}

/// The account after one request: the transition the ledger operations are
/// proved to implement, or the unchanged account where the request fails.
pub open spec fn apply_flow(a: Allocation, op: FlowOp) -> Allocation {
    if flow_applies(a, op) {
        match op {
            FlowOp::Deposit(amt) => spec_credit(a, amt as int, spec_default_split()),
            FlowOp::Withdraw(amt) => spec_withdraw(a, amt as int),
        }
    } else {
        a
    }
}

/// The account after a whole run of requests, applied in order.
pub open spec fn apply_flows(a: Allocation, ops: Seq<FlowOp>) -> Allocation
    decreases ops.len(),
{
    if ops.len() == 0 {
        a
    } else {
        apply_flows(apply_flow(a, ops[0]), ops.skip(1))
    }
}

/// The sum of the deposits the engine applies along the run.
pub open spec fn applied_deposits(a: Allocation, ops: Seq<FlowOp>) -> int
    decreases ops.len(),
{
    if ops.len() == 0 {
        0
    } else {
        (match ops[0] {
            FlowOp::Deposit(amt) => if flow_applies(a, ops[0]) {
                amt as int
            } else {
                0
            },
            FlowOp::Withdraw(_) => 0,
        }) + applied_deposits(apply_flow(a, ops[0]), ops.skip(1))
    }
}

/// The sum of the withdrawals the engine applies along the run.
pub open spec fn applied_withdrawals(a: Allocation, ops: Seq<FlowOp>) -> int
    decreases ops.len(),
{
    if ops.len() == 0 {
        0
    } else {
        (match ops[0] {
            FlowOp::Withdraw(amt) => if flow_applies(a, ops[0]) {
                amt as int
            } else {
                0
            },
            FlowOp::Deposit(_) => 0,
        }) + applied_withdrawals(apply_flow(a, ops[0]), ops.skip(1))
    }
}

/// Conservation and non-negativity: over any sequence of deposits and
/// withdrawals on one account, the total moves by exactly the applied
/// deposits minus the applied withdrawals — the floored bucket splits lose
/// nothing — and the account stays well formed, so no bucket and no total is
/// ever negative.
pub proof fn lemma_flow_conservation(a: Allocation, ops: Seq<FlowOp>)
    requires
        a.wf(),
    ensures
        apply_flows(a, ops).wf(),
        apply_flows(a, ops).total() == a.total() + applied_deposits(a, ops) - applied_withdrawals(
            a,
            ops,
        ),
    decreases ops.len(),
{
    if ops.len() > 0 {
        let b = apply_flow(a, ops[0]);
        if flow_applies(a, ops[0]) {
            match ops[0] {
                FlowOp::Deposit(amt) => lemma_credit(a, amt as int, spec_default_split()),
                FlowOp::Withdraw(amt) => lemma_withdraw(a, amt as int),
            }
        }
        lemma_flow_conservation(b, ops.skip(1));
    }
}

/// One lock-touching request against a savings account: an explicit lock for
/// a duration taken at some time, or an oracle-driven adjustment from a CPI
/// reading taken at some time.
pub enum LockOp {
    Lock(u64, u64),
    OracleAdjust(i128, u64),
}

/// The lock expiry after one request: the transition `lock_funds` and the
/// savings `rebalance` are proved to implement.
pub open spec fn apply_lock(lock_until: int, op: LockOp) -> int {
    match op {
        LockOp::Lock(duration, now) => if now + duration > lock_until {
            now + duration
        } else {
            lock_until
        },
        LockOp::OracleAdjust(cpi, now) => if cpi > HIGH_INFLATION_CPI && now + SECONDS_PER_YEAR
            > lock_until {
            now + SECONDS_PER_YEAR
        } else {
            lock_until
        },
    }
}

/// The lock expiry after a whole run of requests, applied in order.
pub open spec fn apply_locks(lock_until: int, ops: Seq<LockOp>) -> int
    decreases ops.len(),
{
    if ops.len() == 0 {
        lock_until
    } else {
        apply_locks(apply_lock(lock_until, ops[0]), ops.skip(1))
    }
}

/// Lock ratchet: across any sequence of explicit locks and oracle-driven
/// adjustments, the lock expiry never decreases.
pub proof fn lemma_lock_ratchet(lock_until: int, ops: Seq<LockOp>)
    ensures
        apply_locks(lock_until, ops) >= lock_until,
    decreases ops.len(),
{
    if ops.len() > 0 {
        lemma_lock_ratchet(apply_lock(lock_until, ops[0]), ops.skip(1));
    }
}

} // verus!
