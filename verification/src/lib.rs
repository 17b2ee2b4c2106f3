//! An allocation and accrual engine: per-account bucketed balances, a
//! proportional split/withdraw algorithm, time-weighted yield accrual, and an
//! inflation-tier rebalancing policy driven by an external oracle reading.
//!
//! The engine itself is pure: oracle readings, timestamps and asset movement
//! are supplied by the host that embeds it, and every state transition is a
//! verified function from plain values to plain values.

use vstd::prelude::*;

pub mod buckets;
pub mod hedge;
pub mod laws;
pub mod oracle;
pub mod policy;
pub mod savings;
pub mod yield_calc;
pub mod yield_farm;

verus! {

/// Largest balance the engine accepts in any single bucket or total.
/// Keeping totals within this bound keeps every intermediate product of the
/// proportional arithmetic within `i128`.
pub const MAX_BALANCE: i128 = 9_223_372_036_854_775_807;

/// Seconds in the fixed 365-day year used by yield accrual.
pub const SECONDS_PER_YEAR: u64 = 31_536_000;

/// Why a balance-mutating operation was refused. Every error leaves the
/// ledger unchanged.
#[derive(Clone, Copy, Debug, PartialEq, Eq, Structural)]
pub enum LedgerError {
    /// The amount was not strictly positive.
    InvalidAmount,
    /// A withdrawal asked for more than the account's total.
    InsufficientBalance,
    /// A withdrawal came before the account's lock expired.
    FundsLocked,
}

} // verus!
