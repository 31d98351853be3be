use vstd::prelude::*;
use crate::errors::LockError;
use crate::records::{TimeLock, SECONDS_PER_DAY, lock_valid, return_of, lock_return, unlocked_at};
use crate::store::{LockStore, refreshed_retention};

verus! {

/// A lifecycle notification handed to the event transport after a
/// successful mutation. Events are best-effort: a failure to deliver one
/// never rolls back the committed record mutation.
#[derive(Clone, Copy, Debug, PartialEq, Eq, Structural)]
pub enum LockEvent {
    /// A record was created under `lock_id`.
    Created { lock_id: u64, owner: u64, amount: i128, unlock_time: u64 },
    /// The record under `lock_id` was paid out.
    Withdrawn { lock_id: u64, owner: u64, amount: i128 },
}

/// The unlock time of a lock created at `now` for a whole number of days.
pub open spec fn unlock_time_of(now: u64, lock_period_days: u32) -> u64 {
    (now + lock_period_days * SECONDS_PER_DAY) as u64
}

/// The record a successful creation stores: withdrawn starts false, every
/// other field is fixed here once and for all.
pub open spec fn fresh_lock(
    owner: u64,
    amount: i128,
    lock_period_days: u32,
    interest_rate: u32,
    now: u64,
) -> TimeLock {
    TimeLock {
        owner,
        amount,
        unlock_time: unlock_time_of(now, lock_period_days),
        interest_rate,
        withdrawn: false,
    }
}

/// What `create_lock` returns, as a function of the stored records and the
/// call's inputs: the minted id on success, and otherwise the one error
/// naming the first violated precondition, in the order the preconditions
/// are checked (authentication, amount validation, id collision).
pub open spec fn create_outcome(
    locks: Map<u64, TimeLock>,
    amount: i128,
    lock_id: u64,
    auth_ok: bool,
) -> Result<u64, LockError> {
    if !auth_ok {
        Err(LockError::Authorization)
    } else if amount <= 0 {
        Err(LockError::Validation)
    } else if locks.contains_key(lock_id) {
        Err(LockError::IdentityCollision)
    } else {
        Ok(lock_id)
    }
}

/// What `withdraw` returns, as a function of the stored records and the
/// call's inputs: the exact payout on success, and otherwise the one error
/// naming the first violated precondition, in the order the preconditions
/// are checked (authentication, existence, ownership, single payout,
/// timing).
pub open spec fn withdraw_outcome(
    locks: Map<u64, TimeLock>,
    owner: u64,
    lock_id: u64,
    now: u64,
    auth_ok: bool,
) -> Result<i128, LockError> {
    if !auth_ok {
        Err(LockError::Authorization)
    } else if !locks.contains_key(lock_id) {
        Err(LockError::NotFound)
    } else if locks[lock_id].owner != owner {
        Err(LockError::OwnershipMismatch)
    } else if locks[lock_id].withdrawn {
        Err(LockError::AlreadyWithdrawn)
    } else if now < locks[lock_id].unlock_time {
        Err(LockError::LockActive { remaining: (locks[lock_id].unlock_time - now) as u64 })
    } else {
        Ok(return_of(locks[lock_id].amount, locks[lock_id].interest_rate) as i128)
    }
}

/// The stored records after a `withdraw` call: on success the record keeps
/// every field but has `withdrawn` set; on failure nothing changes.
pub open spec fn withdraw_map(
    locks: Map<u64, TimeLock>,
    owner: u64,
    lock_id: u64,
    now: u64,
    auth_ok: bool,
) -> Map<u64, TimeLock> {
    if withdraw_outcome(locks, owner, lock_id, now, auth_ok) is Ok {
        locks.insert(
            lock_id,
            TimeLock {
                owner: locks[lock_id].owner,
                amount: locks[lock_id].amount,
                unlock_time: locks[lock_id].unlock_time,
                interest_rate: locks[lock_id].interest_rate,
                withdrawn: true,
            },
        )
    } else {
        locks
    }
}

/// What `get_lock` returns: the record under `lock_id`, independent of its
/// withdrawn state, or `NotFound` — in multi-lock mode an unknown id is an
/// error, since ids are only ever handed out by successful creations.
pub open spec fn get_outcome(locks: Map<u64, TimeLock>, lock_id: u64) -> Result<
    TimeLock,
    LockError,
> {
    if locks.contains_key(lock_id) {
        Ok(locks[lock_id])
    } else {
        Err(LockError::NotFound)
    }
}

/// What `calculate_return` returns: the payout a withdrawal would make now,
/// independent of whether the lock is unlocked or already withdrawn.
pub open spec fn return_outcome(locks: Map<u64, TimeLock>, lock_id: u64) -> Result<
    i128,
    LockError,
> {
    if locks.contains_key(lock_id) {
        Ok(return_of(locks[lock_id].amount, locks[lock_id].interest_rate) as i128)
    } else {
        Err(LockError::NotFound)
    }
}

/// The multi-lock service: records are keyed by a minted sequence number,
/// an owner may hold many concurrent locks, and withdrawal pays principal
/// plus flat interest.
///
/// Each operation takes the host collaborators' contributions as plain
/// arguments: `now` from the clock, `lock_id` from the clock's sequence
/// source, and `auth_ok` from the authentication provider. Exclusive access
/// per service value (`&mut self`) stands in for the host's serialized
/// execution: no two calls can interleave between a read and its write.
pub struct TimeLockContract {
    store: LockStore,
    events: Vec<LockEvent>,
}

impl TimeLockContract {
    /// The stored records, as a map from lock id to record.
    pub closed spec fn locks(self) -> Map<u64, TimeLock> {
        self.store.view()
    }

    /// Every event emitted so far, oldest first.
    pub closed spec fn events_log(self) -> Seq<LockEvent> {
        self.events@
    }

    /// The timestamp up to which the storage layer currently guarantees
    /// the records' survival.
    pub closed spec fn spec_retention_deadline(self) -> u64 {
        self.store.spec_retention_deadline()
    }

    pub closed spec fn spec_retention_window(self) -> u64 {
        self.store.spec_retention_window()
    }

    /// Every stored record is well formed.
    pub closed spec fn wf(self) -> bool {
        self.store.wf()
    }

    /// A fresh service with no records, no events, and the given retention
    /// window (a deployment parameter, not a correctness invariant).
    pub fn new(retention_window: u64) -> (s: Self)
        ensures
            s.wf(),
            s.locks() == Map::<u64, TimeLock>::empty(),
            s.events_log() == Seq::<LockEvent>::empty(),
            s.spec_retention_window() == retention_window,
            s.spec_retention_deadline() == 0,
    {
        TimeLockContract { store: LockStore::new(retention_window), events: Vec::new() }
    }

    /// Creates a new time-locked record under the minted `lock_id`.
    ///
    /// `now` is the clock's current time, `lock_id` the fresh value of the
    /// clock's sequence source, and `auth_ok` whether the caller proved
    /// control of `owner`. On success the record is persisted, the
    /// retention window is refreshed, and a `Created` event is emitted; on
    /// failure nothing at all changes.
    pub fn create_lock(
        &mut self,
        owner: u64,
        amount: i128,
        lock_period_days: u32,
        interest_rate: u32,
        now: u64,
        lock_id: u64,
        auth_ok: bool,
    ) -> (r: Result<u64, LockError>)
        requires
            old(self).wf(),
            now + lock_period_days * SECONDS_PER_DAY <= u64::MAX,
            amount > 0 ==> amount * interest_rate <= i128::MAX,
            amount > 0 ==> amount + (amount * interest_rate) / 100 <= i128::MAX,
        ensures
            final(self).wf(),
            r == create_outcome(old(self).locks(), amount, lock_id, auth_ok),
            r is Ok ==> final(self).locks() == old(self).locks().insert(
                lock_id,
                fresh_lock(owner, amount, lock_period_days, interest_rate, now),
            ),
            r is Ok ==> final(self).events_log() == old(self).events_log().push(
                (LockEvent::Created {
                    lock_id,
                    owner,
                    amount,
                    unlock_time: unlock_time_of(now, lock_period_days),
                }),
            ),
            r is Ok ==> final(self).spec_retention_deadline() == refreshed_retention(
                old(self).spec_retention_deadline(),
                now,
                old(self).spec_retention_window(),
            ),
            r is Err ==> *final(self) == *old(self),
            final(self).spec_retention_window() == old(self).spec_retention_window(),
    {
        if !auth_ok {
            return Err(LockError::Authorization);
        }
        if amount <= 0 {
            return Err(LockError::Validation);
        }
        if self.store.contains(lock_id) {
            return Err(LockError::IdentityCollision);
        }
        let lock_period_seconds: u64 = (lock_period_days as u64) * SECONDS_PER_DAY;
        let unlock_time: u64 = now + lock_period_seconds;
        let timelock = TimeLock { owner, amount, unlock_time, interest_rate, withdrawn: false };
        self.store.put(lock_id, timelock);
        self.store.extend_retention(now);
        self.events.push(
            LockEvent::Created { lock_id, owner, amount, unlock_time },
        );
        Ok(lock_id)
    }

    /// Pays out the record under `lock_id`: principal plus flat interest,
    /// rounded toward zero.
    ///
    /// Succeeds exactly when the caller authenticated as the record's
    /// owner, the record exists, was never paid out before, and its unlock
    /// time has been reached. On success the record is marked withdrawn and
    /// persisted, the retention window is refreshed, and a `Withdrawn`
    /// event carrying the paid amount is emitted; on failure nothing at all
    /// changes, so a retry after success can never pay twice.
    pub fn withdraw(&mut self, owner: u64, lock_id: u64, now: u64, auth_ok: bool) -> (r: Result<
        i128,
        LockError,
    >)
        requires
            old(self).wf(),
        ensures
            final(self).wf(),
            r == withdraw_outcome(old(self).locks(), owner, lock_id, now, auth_ok),
            final(self).locks() == withdraw_map(old(self).locks(), owner, lock_id, now, auth_ok),
            r matches Ok(paid) ==> final(self).events_log() == old(self).events_log().push(
                (LockEvent::Withdrawn { lock_id, owner, amount: paid }),
            ),
            r is Ok ==> final(self).spec_retention_deadline() == refreshed_retention(
                old(self).spec_retention_deadline(),
                now,
                old(self).spec_retention_window(),
            ),
            r is Err ==> *final(self) == *old(self),
            final(self).spec_retention_window() == old(self).spec_retention_window(),
    {
        if !auth_ok {
            return Err(LockError::Authorization);
        }
        let mut timelock = match self.store.get(lock_id) {
            Some(t) => t,
            None => {
                return Err(LockError::NotFound);
            },
        };
        if timelock.owner != owner {
            return Err(LockError::OwnershipMismatch);
        }
        if timelock.withdrawn {
            return Err(LockError::AlreadyWithdrawn);
        }
        if now < timelock.unlock_time {
            return Err(LockError::LockActive { remaining: timelock.unlock_time - now });
        }
        let total_amount = lock_return(&timelock);
        timelock.withdrawn = true;
        self.store.put(lock_id, timelock);
        self.store.extend_retention(now);
        self.events.push(LockEvent::Withdrawn { lock_id, owner, amount: total_amount });
        Ok(total_amount)
    }

    /// Read-only lookup of the record under `lock_id`, independent of its
    /// withdrawn state; an unknown id is `NotFound`.
    pub fn get_lock(&self, lock_id: u64) -> (r: Result<TimeLock, LockError>)
        ensures
            r == get_outcome(self.locks(), lock_id),
    {
        match self.store.get(lock_id) {
            Some(t) => Ok(t),
            None => Err(LockError::NotFound),
        }
    }

    /// Whether the record under `lock_id` may be withdrawn at `now`.
    pub fn is_unlocked(&self, lock_id: u64, now: u64) -> (r: Result<bool, LockError>)
        ensures
            r == match get_outcome(self.locks(), lock_id) {
                Ok(t) => Ok::<bool, LockError>(unlocked_at(t.unlock_time, now)),
                Err(e) => Err(e),
            },
    {
        match self.store.get(lock_id) {
            Some(t) => Ok(now >= t.unlock_time),
            None => Err(LockError::NotFound),
        }
    }

    /// Side-effect-free projection of the amount `withdraw` would pay,
    /// independent of whether the lock is unlocked or already withdrawn.
    pub fn calculate_return(&self, lock_id: u64) -> (r: Result<i128, LockError>)
        requires
            self.wf(),
        ensures
            r == return_outcome(self.locks(), lock_id),
    {
        match self.store.get(lock_id) {
            Some(t) => Ok(lock_return(&t)),
            None => Err(LockError::NotFound),
        }
    }

    /// The events emitted so far, oldest first, for the host transport to
    /// deliver.
    pub fn events(&self) -> (r: &Vec<LockEvent>)
        ensures
            r@ == self.events_log(),
    {
        &self.events
    }

    /// The timestamp up to which the storage layer currently guarantees
    /// the records' survival.
    pub fn retention_deadline(&self) -> (r: u64)
        ensures
            r == self.spec_retention_deadline(),
    {
        self.store.retention_deadline()
    }
}

} // verus!
