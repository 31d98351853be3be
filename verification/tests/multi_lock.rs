use timelock::errors::LockError;
use timelock::locks::{LockEvent, TimeLockContract};

const WINDOW: u64 = 5000;
const DAY: u64 = 86400;

#[test]
fn test_create_and_withdraw() {
    let mut client = TimeLockContract::new(WINDOW);
    let owner: u64 = 42;

    // Create lock
    let lock_id = client.create_lock(owner, 1000, 30, 5, 0, 1, true).unwrap();

    // Verify lock created
    let timelock = client.get_lock(lock_id).unwrap();
    assert_eq!(timelock.amount, 1000);
    assert_eq!(timelock.interest_rate, 5);

    // Calculate expected return
    let expected_return = client.calculate_return(lock_id).unwrap();
    assert_eq!(expected_return, 1050); // 1000 + 5% = 1050
}

#[test]
fn test_early_withdrawal() {
    let mut client = TimeLockContract::new(WINDOW);
    let owner: u64 = 42;

    let lock_id = client.create_lock(owner, 1000, 30, 5, 0, 1, true).unwrap();

    // Try to withdraw immediately (should fail, reporting the full wait)
    let res = client.withdraw(owner, lock_id, 0, true);
    assert_eq!(res, Err(LockError::LockActive { remaining: 30 * DAY }));
}

#[test]
fn test_create_then_inspect() {
    let mut client = TimeLockContract::new(WINDOW);
    let now: u64 = 1_700_000_000;
    let lock_id = client.create_lock(7, 2500, 10, 12, now, 99, true).unwrap();
    assert_eq!(lock_id, 99);

    let record = client.get_lock(99).unwrap();
    assert_eq!(record.owner, 7);
    assert_eq!(record.amount, 2500);
    assert_eq!(record.interest_rate, 12);
    assert_eq!(record.unlock_time, now + 10 * DAY);
    assert!(!record.withdrawn);
}

#[test]
fn test_create_non_positive_amount() {
    let mut client = TimeLockContract::new(WINDOW);
    assert_eq!(client.create_lock(7, 0, 10, 5, 0, 1, true), Err(LockError::Validation));
    assert_eq!(client.create_lock(7, -25, 10, 5, 0, 1, true), Err(LockError::Validation));
    // Nothing was persisted and no event was emitted.
    assert_eq!(client.get_lock(1), Err(LockError::NotFound));
    assert!(client.events().is_empty());
}

#[test]
fn test_withdraw_at_unlock_time() {
    let mut client = TimeLockContract::new(WINDOW);
    client.create_lock(7, 1000, 30, 5, 100, 1, true).unwrap();

    // One second early: still locked, exactly one second remaining.
    let early = client.withdraw(7, 1, 100 + 30 * DAY - 1, true);
    assert_eq!(early, Err(LockError::LockActive { remaining: 1 }));

    // Exactly at the unlock time: paid.
    let paid = client.withdraw(7, 1, 100 + 30 * DAY, true).unwrap();
    assert_eq!(paid, 1050);
}

#[test]
fn test_withdraw_twice() {
    let mut client = TimeLockContract::new(WINDOW);
    client.create_lock(7, 1000, 0, 5, 0, 1, true).unwrap();

    assert_eq!(client.withdraw(7, 1, 50, true), Ok(1050));
    assert_eq!(client.withdraw(7, 1, 60, true), Err(LockError::AlreadyWithdrawn));

    // Exactly one payout event was recorded.
    let payouts = client
        .events()
        .iter()
        .filter(|e| matches!(e, LockEvent::Withdrawn { .. }))
        .count();
    assert_eq!(payouts, 1);
}

#[test]
fn test_calculate_return_idempotent() {
    let mut client = TimeLockContract::new(WINDOW);
    client.create_lock(7, 777, 1, 9, 0, 1, true).unwrap();

    let first = client.calculate_return(1);
    let second = client.calculate_return(1);
    assert_eq!(first, second);

    let paid = client.withdraw(7, 1, DAY, true).unwrap();
    assert_eq!(first, Ok(paid));
}

#[test]
fn test_interest_truncation() {
    let mut client = TimeLockContract::new(WINDOW);
    client.create_lock(7, 1000, 0, 5, 0, 1, true).unwrap();
    client.create_lock(7, 999, 0, 5, 0, 2, true).unwrap();
    // 1000 at 5%: interest 50.
    assert_eq!(client.calculate_return(1), Ok(1050));
    // 999 at 5%: 49.95 truncates to 49.
    assert_eq!(client.calculate_return(2), Ok(1048));
}

#[test]
fn test_contending_withdrawals() {
    let mut client = TimeLockContract::new(WINDOW);
    let owner: u64 = 7;
    client.create_lock(owner, 1000, 0, 5, 0, 1, true).unwrap();

    // Simulated parallel callers: per-record exclusive access serializes
    // them in some order; here, in caller order.
    let mut payouts: i128 = 0;
    let mut successes = 0;
    let mut already = 0;
    for attempt in 0..5u64 {
        match client.withdraw(owner, 1, 10 + attempt, true) {
            Ok(paid) => {
                successes += 1;
                payouts += paid;
            }
            Err(LockError::AlreadyWithdrawn) => already += 1,
            Err(other) => panic!("unexpected error {:?}", other),
        }
    }
    assert_eq!(successes, 1);
    assert_eq!(already, 4);
    assert_eq!(payouts, 1050);
}

#[test]
fn test_unauthenticated_caller() {
    let mut client = TimeLockContract::new(WINDOW);
    assert_eq!(client.create_lock(7, 1000, 30, 5, 0, 1, false), Err(LockError::Authorization));
    client.create_lock(7, 1000, 0, 5, 0, 1, true).unwrap();
    assert_eq!(client.withdraw(7, 1, 50, false), Err(LockError::Authorization));
}

#[test]
fn test_wrong_owner() {
    let mut client = TimeLockContract::new(WINDOW);
    client.create_lock(7, 1000, 0, 5, 0, 1, true).unwrap();
    // Caller 8 authenticated, but the record belongs to 7.
    assert_eq!(client.withdraw(8, 1, 50, true), Err(LockError::OwnershipMismatch));
}

#[test]
fn test_unknown_lock() {
    let mut client = TimeLockContract::new(WINDOW);
    assert_eq!(client.get_lock(3), Err(LockError::NotFound));
    assert_eq!(client.is_unlocked(3, 100), Err(LockError::NotFound));
    assert_eq!(client.calculate_return(3), Err(LockError::NotFound));
    assert_eq!(client.withdraw(7, 3, 100, true), Err(LockError::NotFound));
}

#[test]
fn test_id_collision() {
    let mut client = TimeLockContract::new(WINDOW);
    client.create_lock(7, 1000, 0, 5, 0, 1, true).unwrap();
    assert_eq!(client.create_lock(8, 500, 0, 5, 0, 1, true), Err(LockError::IdentityCollision));
    // The original record was not overwritten.
    assert_eq!(client.get_lock(1).unwrap().owner, 7);
    assert_eq!(client.get_lock(1).unwrap().amount, 1000);
}

#[test]
fn test_is_unlocked() {
    let mut client = TimeLockContract::new(WINDOW);
    client.create_lock(7, 1000, 1, 5, 100, 1, true).unwrap();
    assert_eq!(client.is_unlocked(1, 100), Ok(false));
    assert_eq!(client.is_unlocked(1, 100 + DAY - 1), Ok(false));
    assert_eq!(client.is_unlocked(1, 100 + DAY), Ok(true));
}

#[test]
fn test_events_emitted() {
    let mut client = TimeLockContract::new(WINDOW);
    client.create_lock(7, 200, 0, 50, 30, 6, true).unwrap();
    client.withdraw(7, 6, 31, true).unwrap();
    let events = client.events();
    assert_eq!(events.len(), 2);
    assert_eq!(
        events[0],
        LockEvent::Created { lock_id: 6, owner: 7, amount: 200, unlock_time: 30 }
    );
    assert_eq!(events[1], LockEvent::Withdrawn { lock_id: 6, owner: 7, amount: 300 });
}

#[test]
fn test_retention_refreshed() {
    let mut client = TimeLockContract::new(WINDOW);
    assert_eq!(client.retention_deadline(), 0);
    client.create_lock(7, 1000, 0, 5, 100, 1, true).unwrap();
    assert_eq!(client.retention_deadline(), 100 + WINDOW);
    client.withdraw(7, 1, 200, true).unwrap();
    assert_eq!(client.retention_deadline(), 200 + WINDOW);
    // A failing call refreshes nothing.
    let _ = client.withdraw(7, 1, 9000, true);
    assert_eq!(client.retention_deadline(), 200 + WINDOW);
}
