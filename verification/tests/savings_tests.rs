use allocation_engine::savings::SavingsContract;
use allocation_engine::LedgerError;

#[test]
fn test_deposit() {
    let mut ledger = SavingsContract::init();
    let user: u64 = 1;
    ledger.deposit(user, 100).unwrap();

    assert_eq!(ledger.get_balance(user), 100);
}

#[test]
fn test_withdraw() {
    let mut ledger = SavingsContract::init();
    let user: u64 = 1;
    ledger.deposit(user, 100).unwrap();
    ledger.withdraw(user, 50, 0).unwrap();

    assert_eq!(ledger.get_balance(user), 50);
}

#[test]
fn test_lock() {
    let mut ledger = SavingsContract::init();
    let user: u64 = 1;
    ledger.deposit(user, 100).unwrap();
    ledger.lock_funds(user, 1000, 0); // lock for 1000 seconds

    // At timestamp 2000 the lock has expired, so the withdrawal works.
    ledger.withdraw(user, 50, 2000).unwrap();
    assert_eq!(ledger.get_balance(user), 50);
}

#[test]
fn lock_enforcement() {
    let mut ledger = SavingsContract::init();
    let user: u64 = 7;
    ledger.deposit(user, 100).unwrap();
    let lock_until = ledger.lock_funds(user, 1000, 0);
    assert_eq!(lock_until, 1000);

    assert_eq!(ledger.withdraw(user, 50, 500), Err(LedgerError::FundsLocked));
    assert_eq!(ledger.get_balance(user), 100);
    assert_eq!(ledger.withdraw(user, 50, 2000), Ok(()));
    assert_eq!(ledger.get_balance(user), 50);
}

#[test]
fn deposit_rejects_non_positive_amounts() {
    let mut ledger = SavingsContract::init();
    let user: u64 = 2;
    assert_eq!(ledger.deposit(user, 0), Err(LedgerError::InvalidAmount));
    assert_eq!(ledger.deposit(user, -5), Err(LedgerError::InvalidAmount));
    assert_eq!(ledger.get_balance(user), 0);
}

#[test]
fn withdraw_rejects_non_positive_amounts() {
    let mut ledger = SavingsContract::init();
    let user: u64 = 2;
    ledger.deposit(user, 100).unwrap();
    assert_eq!(ledger.withdraw(user, 0, 0), Err(LedgerError::InvalidAmount));
    assert_eq!(ledger.withdraw(user, -1, 0), Err(LedgerError::InvalidAmount));
    assert_eq!(ledger.get_balance(user), 100);
}

#[test]
fn withdraw_insufficient_balance() {
    let mut ledger = SavingsContract::init();
    let user: u64 = 3;
    ledger.deposit(user, 100).unwrap();
    assert_eq!(ledger.withdraw(user, 200, 0), Err(LedgerError::InsufficientBalance));
    assert_eq!(ledger.get_balance(user), 100);
}

#[test]
fn insufficient_balance_reported_before_lock() {
    let mut ledger = SavingsContract::init();
    let user: u64 = 4;
    ledger.deposit(user, 100).unwrap();
    ledger.lock_funds(user, 1000, 0);
    // The balance check comes first, even while the funds are locked.
    assert_eq!(ledger.withdraw(user, 200, 500), Err(LedgerError::InsufficientBalance));
}

#[test]
fn lock_never_shortens() {
    let mut ledger = SavingsContract::init();
    let user: u64 = 5;
    ledger.deposit(user, 100).unwrap();
    assert_eq!(ledger.lock_funds(user, 1000, 0), 1000);
    // A shorter re-lock leaves the standing expiry in force.
    assert_eq!(ledger.lock_funds(user, 10, 0), 1000);
    assert_eq!(ledger.get_lock_status(user), 1000);
}

#[test]
fn rebalance_extends_lock_on_high_cpi_only() {
    let mut ledger = SavingsContract::init();
    let user: u64 = 6;
    ledger.deposit(user, 100).unwrap();
    ledger.lock_funds(user, 1000, 0);

    // At or below the threshold nothing changes.
    ledger.rebalance(user, 200, 0);
    assert_eq!(ledger.get_lock_status(user), 1000);

    // Above the threshold the lock ratchets out to a year from now.
    ledger.rebalance(user, 250, 0);
    assert_eq!(ledger.get_lock_status(user), 31_536_000);
    assert_eq!(ledger.get_balance(user), 100);

    // A later low reading, or a shorter lock request, never shortens it.
    ledger.rebalance(user, 100, 40_000_000);
    assert_eq!(ledger.get_lock_status(user), 31_536_000);
    assert_eq!(ledger.lock_funds(user, 10, 0), 31_536_000);
}

#[test]
fn savings_conservation_over_sequence() {
    let mut ledger = SavingsContract::init();
    let user: u64 = 8;
    ledger.deposit(user, 1000).unwrap();
    ledger.withdraw(user, 300, 0).unwrap();
    ledger.deposit(user, 7).unwrap();
    ledger.withdraw(user, 1, 0).unwrap();
    assert_eq!(ledger.get_balance(user), 1000 - 300 + 7 - 1);
}

#[test]
fn absent_account_reads_as_zero() {
    let ledger = SavingsContract::init();
    assert_eq!(ledger.get_balance(99), 0);
    assert_eq!(ledger.get_lock_status(99), 0);
}

#[test]
fn accounts_are_independent() {
    let mut ledger = SavingsContract::init();
    ledger.deposit(1, 100).unwrap();
    ledger.deposit(2, 200).unwrap();
    ledger.withdraw(1, 40, 0).unwrap();
    assert_eq!(ledger.get_balance(1), 60);
    assert_eq!(ledger.get_balance(2), 200);
}
