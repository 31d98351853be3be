use timelock::errors::LockError;
use timelock::records::AccountStorage;
use timelock::savings::TimeLockSavings;

const WINDOW: u64 = 5000;

#[test]
fn test_deposit_then_check() {
    let mut service = TimeLockSavings::new(WINDOW);
    let now: u64 = 1_700_000_000;
    service.deposit(7, 2500, 3600, now, true).unwrap();

    let account = service.check_account(7);
    assert_eq!(account.owner, 7);
    assert_eq!(account.balance, 2500);
    assert_eq!(account.unlock_time, now + 3600);
    assert!(!account.withdrawn);
}

#[test]
fn test_deposit_non_positive() {
    let mut service = TimeLockSavings::new(WINDOW);
    assert_eq!(service.deposit(7, 0, 3600, 0, true), Err(LockError::Validation));
    assert_eq!(service.deposit(7, -1, 3600, 0, true), Err(LockError::Validation));
    // Nothing was persisted: inspection still answers with the sentinel.
    let account = service.check_account(7);
    assert_eq!(account.balance, 0);
    assert_eq!(account.unlock_time, 0);
    assert!(!account.withdrawn);
}

#[test]
fn test_savings_withdraw_timing() {
    let mut service = TimeLockSavings::new(WINDOW);
    service.deposit(7, 800, 1000, 100, true).unwrap();

    assert_eq!(service.withdraw(7, 100, true), Err(LockError::LockActive { remaining: 1000 }));
    assert_eq!(service.withdraw(7, 1099, true), Err(LockError::LockActive { remaining: 1 }));
    assert_eq!(service.withdraw(7, 1100, true), Ok(800));
}

#[test]
fn test_savings_withdraw_twice() {
    let mut service = TimeLockSavings::new(WINDOW);
    service.deposit(7, 800, 0, 0, true).unwrap();

    assert_eq!(service.withdraw(7, 10, true), Ok(800));
    assert_eq!(service.withdraw(7, 20, true), Err(LockError::AlreadyWithdrawn));
    // The record survives as a tombstone, marked withdrawn.
    let account = service.check_account(7);
    assert_eq!(account.balance, 800);
    assert!(account.withdrawn);
}

#[test]
fn test_duplicate_deposit() {
    let mut service = TimeLockSavings::new(WINDOW);
    service.deposit(7, 800, 3600, 0, true).unwrap();
    assert_eq!(service.deposit(7, 900, 60, 0, true), Err(LockError::DuplicateAccount));
    // The first record is untouched.
    assert_eq!(service.check_account(7).balance, 800);
}

#[test]
fn test_recreate_after_withdrawal() {
    let mut service = TimeLockSavings::new(WINDOW);
    service.deposit(7, 800, 0, 0, true).unwrap();
    service.withdraw(7, 10, true).unwrap();
    // Records are never deleted, so the duplicate check still sees the
    // withdrawn record: a further deposit for this owner stays refused.
    assert_eq!(service.deposit(7, 900, 60, 20, true), Err(LockError::DuplicateAccount));
}

#[test]
fn test_check_account_sentinel() {
    let service = TimeLockSavings::new(WINDOW);
    let account = service.check_account(31);
    assert_eq!(account.owner, 31);
    assert_eq!(account.balance, 0);
    assert_eq!(account.unlock_time, 0);
    assert!(!account.withdrawn);
}

#[test]
fn test_savings_unauthenticated() {
    let mut service = TimeLockSavings::new(WINDOW);
    assert_eq!(service.deposit(7, 800, 3600, 0, false), Err(LockError::Authorization));
    service.deposit(7, 800, 0, 0, true).unwrap();
    assert_eq!(service.withdraw(7, 10, false), Err(LockError::Authorization));
}

#[test]
fn test_savings_not_found() {
    let mut service = TimeLockSavings::new(WINDOW);
    assert_eq!(service.withdraw(7, 10, true), Err(LockError::NotFound));
}

#[test]
fn test_account_storage_key() {
    let key = AccountStorage::Account(77);
    assert_eq!(key.owner_id(), 77);
}

#[test]
fn test_savings_retention_refreshed() {
    let mut service = TimeLockSavings::new(WINDOW);
    assert_eq!(service.retention_deadline(), 0);
    service.deposit(7, 800, 0, 40, true).unwrap();
    assert_eq!(service.retention_deadline(), 40 + WINDOW);
    service.withdraw(7, 90, true).unwrap();
    assert_eq!(service.retention_deadline(), 90 + WINDOW);
}
