use vstd::prelude::*;
use crate::errors::LockError;
use crate::records::{TimeLock, TimeLockAccount, SECONDS_PER_DAY, return_of, lock_valid};
use crate::locks::{
    create_outcome, withdraw_outcome, withdraw_map, get_outcome, return_outcome, fresh_lock,
};
use crate::savings::{
    deposit_outcome, withdraw_account_outcome, withdraw_account_map, check_outcome, fresh_account,
};

verus! {

/// A lock created under a fresh id is immediately visible: creation
/// succeeds for any positive amount and any duration, and an immediate
/// lookup returns the stored record, not yet withdrawn, unlocking exactly
/// the lock period after the creation time.
pub proof fn lemma_created_lock_is_visible(
    locks: Map<u64, TimeLock>,
    owner: u64,
    amount: i128,
    lock_period_days: u32,
    interest_rate: u32,
    now: u64,
    lock_id: u64,
)
    requires
        amount > 0,
        !locks.contains_key(lock_id),
        now + lock_period_days * SECONDS_PER_DAY <= u64::MAX,
    ensures
        create_outcome(locks, amount, lock_id, true) == Ok::<u64, LockError>(lock_id),
        ({
            let created = locks.insert(
                lock_id,
                fresh_lock(owner, amount, lock_period_days, interest_rate, now),
            );
            &&& get_outcome(created, lock_id) == Ok::<TimeLock, LockError>(created[lock_id])
            &&& !created[lock_id].withdrawn
            &&& created[lock_id].unlock_time == now + lock_period_days * SECONDS_PER_DAY
            &&& created[lock_id].amount == amount
            &&& created[lock_id].owner == owner
        }),
{
}

/// A deposit for a fresh owner is immediately visible: it succeeds for any
/// positive amount and any duration, and an immediate inspection returns
/// the stored record, not yet withdrawn, unlocking exactly the lock
/// duration after the creation time.
pub proof fn lemma_deposit_is_visible(
    accounts: Map<u64, TimeLockAccount>,
    owner: u64,
    amount: i128,
    lock_duration: u64,
    now: u64,
)
    requires
        amount > 0,
        !accounts.contains_key(owner),
        now + lock_duration <= u64::MAX,
    ensures
        deposit_outcome(accounts, owner, amount, true) == Ok::<(), LockError>(()),
        ({
            let created = accounts.insert(owner, fresh_account(owner, amount, lock_duration, now));
            &&& check_outcome(created, owner) == created[owner]
            &&& !created[owner].withdrawn
            &&& created[owner].unlock_time == now + lock_duration
            &&& created[owner].balance == amount
        }),
{
}

/// A non-positive amount is always refused as a validation failure, in
/// both modes; that the refusal persists nothing is part of each create
/// operation's own contract (on any error the service is left untouched).
pub proof fn lemma_non_positive_amount_refused(
    locks: Map<u64, TimeLock>,
    accounts: Map<u64, TimeLockAccount>,
    owner: u64,
    amount: i128,
    lock_id: u64,
)
    requires
        amount <= 0,
    ensures
        create_outcome(locks, amount, lock_id, true) == Err::<u64, LockError>(
            LockError::Validation,
        ),
        deposit_outcome(accounts, owner, amount, true) == Err::<(), LockError>(
            LockError::Validation,
        ),
{
}

/// Withdrawal is governed by the unlock time alone once the caller is the
/// authenticated owner of a not-yet-withdrawn record: before the unlock
/// time it fails as still locked, reporting exactly the remaining wait; at
/// or after the unlock time it succeeds.
pub proof fn lemma_withdraw_timing(
    locks: Map<u64, TimeLock>,
    owner: u64,
    lock_id: u64,
    now: u64,
)
    requires
        locks.contains_key(lock_id),
        locks[lock_id].owner == owner,
        !locks[lock_id].withdrawn,
    ensures
        now < locks[lock_id].unlock_time ==> withdraw_outcome(locks, owner, lock_id, now, true)
            == Err::<i128, LockError>(
            (LockError::LockActive { remaining: (locks[lock_id].unlock_time - now) as u64 }),
        ),
        now >= locks[lock_id].unlock_time ==> withdraw_outcome(locks, owner, lock_id, now, true)
            is Ok,
{
}

/// Single-lock counterpart of the timing law: before the unlock time the
/// withdrawal fails as still locked with the exact remaining wait, at or
/// after it succeeds and pays exactly the principal.
pub proof fn lemma_savings_withdraw_timing(
    accounts: Map<u64, TimeLockAccount>,
    owner: u64,
    now: u64,
)
    requires
        accounts.contains_key(owner),
        !accounts[owner].withdrawn,
    ensures
        now < accounts[owner].unlock_time ==> withdraw_account_outcome(accounts, owner, now, true)
            == Err::<i128, LockError>(
            (LockError::LockActive { remaining: (accounts[owner].unlock_time - now) as u64 }),
        ),
        now >= accounts[owner].unlock_time ==> withdraw_account_outcome(accounts, owner, now, true)
            == Ok::<i128, LockError>(accounts[owner].balance),
{
}

/// A lock pays out at most once. After a successful withdrawal, the same
/// rightful caller is refused with `AlreadyWithdrawn` at any later time,
/// and no caller whatsoever — whatever identity, time or authentication
/// outcome is presented — can make a second withdrawal of the same record
/// succeed, so the paid amount is never duplicated.
pub proof fn lemma_withdraw_pays_once(
    locks: Map<u64, TimeLock>,
    owner: u64,
    lock_id: u64,
    now: u64,
    auth_ok: bool,
)
    requires
        withdraw_outcome(locks, owner, lock_id, now, auth_ok) is Ok,
    ensures
        forall|now2: u64|
            withdraw_outcome(
                withdraw_map(locks, owner, lock_id, now, auth_ok),
                owner,
                lock_id,
                now2,
                true,
            ) == Err::<i128, LockError>(LockError::AlreadyWithdrawn),
        forall|owner2: u64, now2: u64, auth2: bool|
            !(#[trigger] withdraw_outcome(
                withdraw_map(locks, owner, lock_id, now, auth_ok),
                owner2,
                lock_id,
                now2,
                auth2,
            ) is Ok),
{
}

/// Single-lock counterpart of the single-payout law: after a successful
/// withdrawal every further withdrawal by the rightful caller is refused
/// with `AlreadyWithdrawn`, and no caller can be paid a second time.
pub proof fn lemma_savings_withdraw_pays_once(
    accounts: Map<u64, TimeLockAccount>,
    owner: u64,
    now: u64,
    auth_ok: bool,
)
    requires
        withdraw_account_outcome(accounts, owner, now, auth_ok) is Ok,
    ensures
        forall|now2: u64|
            withdraw_account_outcome(
                withdraw_account_map(accounts, owner, now, auth_ok),
                owner,
                now2,
                true,
            ) == Err::<i128, LockError>(LockError::AlreadyWithdrawn),
        forall|now2: u64, auth2: bool|
            !(#[trigger] withdraw_account_outcome(
                withdraw_account_map(accounts, owner, now, auth_ok),
                owner,
                now2,
                auth2,
            ) is Ok),
{
}

/// The projected return agrees with the payout: whenever a withdrawal of
/// an unchanged record succeeds, `calculate_return` on the state the
/// withdrawal read returns exactly the amount the withdrawal pays. The
/// projection itself is free of side effects (it takes the service by
/// shared reference), so repeating it cannot change its answer.
pub proof fn lemma_projected_return_is_paid(
    locks: Map<u64, TimeLock>,
    owner: u64,
    lock_id: u64,
    now: u64,
    auth_ok: bool,
    paid: i128,
)
    requires
        withdraw_outcome(locks, owner, lock_id, now, auth_ok) == Ok::<i128, LockError>(paid),
        lock_valid(locks[lock_id]),
    ensures
        return_outcome(locks, lock_id) == Ok::<i128, LockError>(paid),
        paid == return_of(locks[lock_id].amount, locks[lock_id].interest_rate),
{
}

/// In single-lock mode an owner holds at most one live record: while an
/// existing, not-yet-withdrawn record is stored, a second deposit for the
/// same owner is refused as a duplicate, however well formed it is.
/// (Records are never deleted, so the same refusal meets a deposit after a
/// withdrawal too; that preserved behaviour is exercised by the tests.)
pub proof fn lemma_duplicate_deposit_refused(
    accounts: Map<u64, TimeLockAccount>,
    owner: u64,
    amount: i128,
)
    requires
        accounts.contains_key(owner),
        !accounts[owner].withdrawn,
        amount > 0,
    ensures
        deposit_outcome(accounts, owner, amount, true) == Err::<(), LockError>(
            LockError::DuplicateAccount,
        ),
{
}

/// Serialized contention over one record resolves to a single payout.
/// Calls on one service value are forcibly serialized (each takes `&mut
/// self`), so two contending withdrawals run in some order; whichever
/// order that is: a failed attempt leaves the records exactly as they
/// were, and after a successful attempt no second attempt can succeed —
/// a rightful later caller observes `AlreadyWithdrawn`. Exactly one payout
/// can therefore ever happen, never a double one.
pub proof fn lemma_contending_withdrawals_pay_once(
    locks: Map<u64, TimeLock>,
    lock_id: u64,
    owner1: u64,
    now1: u64,
    auth1: bool,
    owner2: u64,
    now2: u64,
    auth2: bool,
)
    ensures
        withdraw_outcome(locks, owner1, lock_id, now1, auth1) is Err ==> withdraw_map(
            locks,
            owner1,
            lock_id,
            now1,
            auth1,
        ) == locks,
        withdraw_outcome(locks, owner1, lock_id, now1, auth1) is Ok ==> !(withdraw_outcome(
            withdraw_map(locks, owner1, lock_id, now1, auth1),
            owner2,
            lock_id,
            now2,
            auth2,
        ) is Ok),
        withdraw_outcome(locks, owner1, lock_id, now1, auth1) is Ok && owner2 == locks[
            lock_id
        ].owner && auth2 ==> withdraw_outcome(
            withdraw_map(locks, owner1, lock_id, now1, auth1),
            owner2,
            lock_id,
            now2,
            auth2,
        ) == Err::<i128, LockError>(LockError::AlreadyWithdrawn),
{
}

/// A record is immutable but for its `withdrawn` mark: whatever a
/// withdrawal aimed at any key does, every stored record keeps its owner,
/// its principal, its unlock time and its interest rate, and no record is
/// ever deleted.
pub proof fn lemma_record_fields_immutable(
    locks: Map<u64, TimeLock>,
    k: u64,
    owner2: u64,
    lock_id2: u64,
    now2: u64,
    auth2: bool,
)
    requires
        locks.contains_key(k),
    ensures
        withdraw_map(locks, owner2, lock_id2, now2, auth2).contains_key(k),
        withdraw_map(locks, owner2, lock_id2, now2, auth2)[k].owner == locks[k].owner,
        withdraw_map(locks, owner2, lock_id2, now2, auth2)[k].amount == locks[k].amount,
        withdraw_map(locks, owner2, lock_id2, now2, auth2)[k].unlock_time == locks[k].unlock_time,
        withdraw_map(locks, owner2, lock_id2, now2, auth2)[k].interest_rate == locks[
            k
        ].interest_rate,
{
}

/// A paid-out mark is permanent: no later operation reverts `withdrawn`.
/// A withdrawal aimed at any key leaves every already-withdrawn record
/// withdrawn, and a creation can only ever succeed under a key that holds
/// no record at all, so it can never overwrite one.
pub proof fn lemma_withdrawn_is_permanent(
    locks: Map<u64, TimeLock>,
    k: u64,
    amount: i128,
    owner2: u64,
    lock_id2: u64,
    now2: u64,
    auth2: bool,
)
    requires
        locks.contains_key(k),
        locks[k].withdrawn,
    ensures
        withdraw_map(locks, owner2, lock_id2, now2, auth2).contains_key(k),
        withdraw_map(locks, owner2, lock_id2, now2, auth2)[k].withdrawn,
        create_outcome(locks, amount, lock_id2, auth2) is Ok ==> lock_id2 != k,
{
}

} // verus!
