//! The rebalancing policy: pure decisions from an oracle reading.
//!
//! Three tier shapes are used by the engine: a percentage retarget for the
//! hedge ledger, a lock-extension ratchet for the savings ledger, and a
//! binary route classification for the yield ledger.

use vstd::prelude::*;
use crate::SECONDS_PER_YEAR;

verus! {

/// A CPI reading strictly above this is treated as high inflation.
pub const HIGH_INFLATION_CPI: i128 = 200;

/// A CPI reading strictly below this favours the yield route.
pub const LOW_INFLATION_CPI: i128 = 150;

/// Target shares of an account total, one per bucket, in whole percent.
/// A well-formed vector sums to exactly 100.
#[derive(Clone, Copy, Debug, PartialEq, Eq, Structural)]
pub struct Percentages {
    pub stable: i128,
    pub gold: i128,
    pub yield_share: i128,
}

impl Percentages {
    pub open spec fn wf(self) -> bool {
        &&& self.stable >= 0
        &&& self.gold >= 0
        &&& self.yield_share >= 0
        &&& self.stable + self.gold + self.yield_share == 100
    }
}

/// The split applied to every fresh deposit: half stable, then gold, then yield.
pub open spec fn spec_default_split() -> Percentages {
    Percentages { stable: 50, gold: 30, yield_share: 20 }
}

pub fn default_split() -> (r: Percentages)
    ensures
        r == spec_default_split(),
        r.wf(),
{
    Percentages { stable: 50, gold: 30, yield_share: 20 }
}

/// The hedge tier table: high inflation shifts weight from stable to gold.
pub open spec fn spec_hedge_targets(cpi: i128) -> Percentages {
    if cpi > HIGH_INFLATION_CPI {
        Percentages { stable: 30, gold: 50, yield_share: 20 }
    } else {
        Percentages { stable: 50, gold: 30, yield_share: 20 }
    }
}

pub fn hedge_targets(cpi: i128) -> (r: Percentages)
    ensures
        r == spec_hedge_targets(cpi),
        r.wf(),
{
    if cpi > HIGH_INFLATION_CPI {
        Percentages { stable: 30, gold: 50, yield_share: 20 }
    } else {
        Percentages { stable: 50, gold: 30, yield_share: 20 }
    }
}

/// Where the yield ledger would steer new funds. The classification is
/// observational: no balance moves on its account.
#[derive(Clone, Copy, Debug, PartialEq, Eq, Structural)]
pub enum Route {
    Yield,
    Hedge,
}

pub open spec fn spec_route(cpi: i128) -> Route {
    if cpi < LOW_INFLATION_CPI {
        Route::Yield
    } else {
        Route::Hedge
    }
}

pub fn classify_route(cpi: i128) -> (r: Route)
    ensures
        r == spec_route(cpi),
{
    if cpi < LOW_INFLATION_CPI {
        Route::Yield
    } else {
        Route::Hedge
    }
}

/// The savings tier: high inflation ratchets the lock out to a year from now,
/// and a lock is never shortened.
pub open spec fn spec_extended_lock(lock_until: u64, now: u64, cpi: i128) -> int {
    if cpi > HIGH_INFLATION_CPI && now + SECONDS_PER_YEAR > lock_until {
        now + SECONDS_PER_YEAR
    } else {
        lock_until as int
    }
}

pub fn extended_lock(lock_until: u64, now: u64, cpi: i128) -> (r: u64)
    requires
        now + SECONDS_PER_YEAR <= u64::MAX,
    ensures
        r == spec_extended_lock(lock_until, now, cpi),
        r >= lock_until,
{
    if cpi > HIGH_INFLATION_CPI {
        let extended: u64 = now + SECONDS_PER_YEAR;
        if extended > lock_until {
            extended
        } else {
            lock_until
        }
    } else {
        lock_until
    }
}

} // verus!
