use allocation_engine::hedge::InflationHedgeContract;
use allocation_engine::buckets::Allocation;
use allocation_engine::LedgerError;

#[test]
fn lib_test_deposit() {
    let ledger = InflationHedgeContract::init();
    let user: u64 = 1;
    let _ = (ledger, user);
}

#[test]
fn deposit_splits_by_default_percentages() {
    let mut ledger = InflationHedgeContract::init();
    let user: u64 = 1;
    ledger.deposit(user, 1000).unwrap();

    let alloc = ledger.get_allocation(user);
    assert_eq!(alloc, Allocation { stable: 500, gold: 300, yield_bal: 200 });
}

#[test]
fn rebalance_retargets_on_high_cpi() {
    let mut ledger = InflationHedgeContract::init();
    let user: u64 = 1;
    ledger.deposit(user, 1000).unwrap();
    ledger.rebalance(user, 250);

    let alloc = ledger.get_allocation(user);
    assert_eq!(alloc, Allocation { stable: 300, gold: 500, yield_bal: 200 });
    assert_eq!(alloc.stable + alloc.gold + alloc.yield_bal, 1000);
}

#[test]
fn withdraw_debits_proportionally() {
    let mut ledger = InflationHedgeContract::init();
    let user: u64 = 1;
    ledger.deposit(user, 1000).unwrap();
    ledger.rebalance(user, 250);
    ledger.withdraw(user, 500).unwrap();

    let alloc = ledger.get_allocation(user);
    assert_eq!(alloc, Allocation { stable: 150, gold: 250, yield_bal: 100 });
    assert_eq!(alloc.stable + alloc.gold + alloc.yield_bal, 500);
}

#[test]
fn rebalance_is_idempotent() {
    let mut ledger = InflationHedgeContract::init();
    let user: u64 = 2;
    ledger.deposit(user, 999).unwrap();
    ledger.rebalance(user, 250);
    let first = ledger.get_allocation(user);
    ledger.rebalance(user, 250);
    let second = ledger.get_allocation(user);

    assert_eq!(first, Allocation { stable: 301, gold: 499, yield_bal: 199 });
    assert_eq!(first, second);
}

#[test]
fn rebalance_at_threshold_keeps_default_targets() {
    let mut ledger = InflationHedgeContract::init();
    let user: u64 = 2;
    ledger.deposit(user, 1000).unwrap();
    // A reading of exactly 200 is not high inflation.
    ledger.rebalance(user, 200);
    let alloc = ledger.get_allocation(user);
    assert_eq!(alloc, Allocation { stable: 500, gold: 300, yield_bal: 200 });
}

#[test]
fn rebalance_on_empty_account_is_a_no_op() {
    let mut ledger = InflationHedgeContract::init();
    ledger.rebalance(9, 250);
    let alloc = ledger.get_allocation(9);
    assert_eq!(alloc, Allocation { stable: 0, gold: 0, yield_bal: 0 });
}

#[test]
fn deposit_dust_goes_to_stable_and_total_is_exact() {
    let mut ledger = InflationHedgeContract::init();
    let user: u64 = 3;
    // 999 splits as 299 gold, 199 yield, and 501 stable (the dust included).
    ledger.deposit(user, 999).unwrap();
    let alloc = ledger.get_allocation(user);
    assert_eq!(alloc, Allocation { stable: 501, gold: 299, yield_bal: 199 });
    assert_eq!(alloc.stable + alloc.gold + alloc.yield_bal, 999);
}

#[test]
fn withdraw_dust_is_debited_and_total_is_exact() {
    let mut ledger = InflationHedgeContract::init();
    let user: u64 = 4;
    // 5 splits as 1 gold, 1 yield, 3 stable.
    ledger.deposit(user, 5).unwrap();
    // The floored debits cover only 1 of the 2 requested; the dust comes
    // from the stable bucket.
    ledger.withdraw(user, 2).unwrap();
    let alloc = ledger.get_allocation(user);
    assert_eq!(alloc, Allocation { stable: 1, gold: 1, yield_bal: 1 });
}

#[test]
fn hedge_conservation_over_sequence() {
    let mut ledger = InflationHedgeContract::init();
    let user: u64 = 5;
    ledger.deposit(user, 1000).unwrap();
    ledger.withdraw(user, 300).unwrap();
    ledger.deposit(user, 7).unwrap();
    ledger.withdraw(user, 1).unwrap();
    let alloc = ledger.get_allocation(user);
    assert_eq!(alloc.stable + alloc.gold + alloc.yield_bal, 1000 - 300 + 7 - 1);
}

#[test]
fn hedge_deposit_rejects_non_positive_amounts() {
    let mut ledger = InflationHedgeContract::init();
    assert_eq!(ledger.deposit(1, 0), Err(LedgerError::InvalidAmount));
    assert_eq!(ledger.deposit(1, -3), Err(LedgerError::InvalidAmount));
}

#[test]
fn hedge_withdraw_rejects_bad_amounts() {
    let mut ledger = InflationHedgeContract::init();
    let user: u64 = 6;
    ledger.deposit(user, 100).unwrap();
    assert_eq!(ledger.withdraw(user, 0), Err(LedgerError::InvalidAmount));
    assert_eq!(ledger.withdraw(user, 101), Err(LedgerError::InsufficientBalance));
    // Withdrawing the whole total is allowed.
    assert_eq!(ledger.withdraw(user, 100), Ok(()));
    let alloc = ledger.get_allocation(user);
    assert_eq!(alloc, Allocation { stable: 0, gold: 0, yield_bal: 0 });
}

#[test]
fn external_rebalance_behaves_as_rebalance() {
    let mut ledger = InflationHedgeContract::init();
    let user: u64 = 7;
    ledger.deposit(user, 1000).unwrap();
    ledger.external_rebalance(user, 250);
    let alloc = ledger.get_allocation(user);
    assert_eq!(alloc, Allocation { stable: 300, gold: 500, yield_bal: 200 });
}
