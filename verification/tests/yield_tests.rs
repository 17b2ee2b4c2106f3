use allocation_engine::yield_farm::DeFiYieldContract;
use allocation_engine::policy::Route;
use allocation_engine::LedgerError;

#[test]
fn test_deposit_yield() {
    let ledger = DeFiYieldContract::init();
    let user: u64 = 1;
    let _ = (ledger, user);
}

#[test]
fn yield_accrues_over_a_full_year() {
    let mut ledger = DeFiYieldContract::init();
    let user: u64 = 1;
    ledger.deposit_yield(user, 1000, 0).unwrap();

    // 10% a year on 1000 over exactly one year.
    let harvested = ledger.harvest_yield(user, 31_536_000);
    assert_eq!(harvested, 100);

    // The principal is untouched and the accrual clock restarted.
    assert_eq!(ledger.get_stake(user), (1000, 31_536_000));
}

#[test]
fn immediate_second_harvest_yields_zero() {
    let mut ledger = DeFiYieldContract::init();
    let user: u64 = 1;
    ledger.deposit_yield(user, 1000, 0).unwrap();
    let first = ledger.harvest_yield(user, 31_536_000);
    let second = ledger.harvest_yield(user, 31_536_000);
    assert_eq!(first, 100);
    assert_eq!(second, 0);
}

#[test]
fn yield_is_monotonic_in_elapsed_time() {
    let mut half = DeFiYieldContract::init();
    half.deposit_yield(1, 1000, 0).unwrap();
    let half_year = half.harvest_yield(1, 15_768_000);

    let mut full = DeFiYieldContract::init();
    full.deposit_yield(1, 1000, 0).unwrap();
    let full_year = full.harvest_yield(1, 31_536_000);

    assert_eq!(half_year, 50);
    assert_eq!(full_year, 100);
    assert!(half_year <= full_year);
}

#[test]
fn harvest_of_zero_stake_is_a_no_op() {
    let mut ledger = DeFiYieldContract::init();
    assert_eq!(ledger.harvest_yield(5, 1_000_000), 0);
    assert_eq!(ledger.get_stake(5), (0, 0));
}

#[test]
fn deposit_restarts_the_accrual_clock() {
    let mut ledger = DeFiYieldContract::init();
    let user: u64 = 2;
    ledger.deposit_yield(user, 500, 0).unwrap();
    ledger.deposit_yield(user, 500, 10_000).unwrap();
    assert_eq!(ledger.get_stake(user), (1000, 10_000));
}

#[test]
fn deposit_yield_rejects_non_positive_amounts() {
    let mut ledger = DeFiYieldContract::init();
    assert_eq!(ledger.deposit_yield(1, 0, 0), Err(LedgerError::InvalidAmount));
    assert_eq!(ledger.deposit_yield(1, -10, 0), Err(LedgerError::InvalidAmount));
    assert_eq!(ledger.get_stake(1), (0, 0));
}

#[test]
fn provide_liquidity_records_both_amounts() {
    let mut ledger = DeFiYieldContract::init();
    assert_eq!(ledger.provide_liquidity(1, 10, 20), Ok(()));
    assert_eq!(ledger.provide_liquidity(1, 5, 5), Ok(()));
    assert_eq!(ledger.provide_liquidity(1, 0, 5), Err(LedgerError::InvalidAmount));
    assert_eq!(ledger.provide_liquidity(1, 5, -1), Err(LedgerError::InvalidAmount));
}

#[test]
fn low_cpi_routes_to_yield() {
    let ledger = DeFiYieldContract::init();
    assert_eq!(ledger.auto_allocate(149), Route::Yield);
    assert_eq!(ledger.auto_allocate(150), Route::Hedge);
    assert_eq!(ledger.auto_allocate(250), Route::Hedge);
}
