use vstd::prelude::*;
use crate::errors::LockError;
use crate::records::{TimeLockAccount, AccountStorage};
use crate::store::{AccountStore, refreshed_retention};

verus! {

/// The record a successful deposit stores for `owner`: withdrawn starts
/// false, every other field is fixed here once and for all.
pub open spec fn fresh_account(owner: u64, amount: i128, lock_duration: u64, now: u64)
    -> TimeLockAccount {
    TimeLockAccount { owner, balance: amount, unlock_time: (now + lock_duration) as u64, withdrawn: false }
}

/// The zero-value sentinel `check_account` returns for a never-created
/// owner: deliberately "no account yet", not an error.
pub open spec fn empty_account(owner: u64) -> TimeLockAccount {
    TimeLockAccount { owner, balance: 0, unlock_time: 0, withdrawn: false }
}

/// What `deposit` returns, as a function of the stored records and the
/// call's inputs, in the order the preconditions are checked
/// (authentication, amount validation, single record per owner).
pub open spec fn deposit_outcome(
    accounts: Map<u64, TimeLockAccount>,
    owner: u64,
    amount: i128,
    auth_ok: bool,
) -> Result<(), LockError> {
    if !auth_ok {
        Err(LockError::Authorization)
    } else if amount <= 0 {
        Err(LockError::Validation)
    } else if accounts.contains_key(owner) {
        Err(LockError::DuplicateAccount)
    } else {
        Ok(())
    }
}

/// What single-lock `withdraw` returns: the principal on success, and
/// otherwise the one error naming the first violated precondition, in the
/// order the preconditions are checked (authentication, existence, single
/// payout, timing). No ownership comparison appears here: the key is the
/// owner identity itself.
pub open spec fn withdraw_account_outcome(
    accounts: Map<u64, TimeLockAccount>,
    owner: u64,
    now: u64,
    auth_ok: bool,
) -> Result<i128, LockError> {
    if !auth_ok {
        Err(LockError::Authorization)
    } else if !accounts.contains_key(owner) {
        Err(LockError::NotFound)
    } else if accounts[owner].withdrawn {
        Err(LockError::AlreadyWithdrawn)
    } else if now < accounts[owner].unlock_time {
        Err(LockError::LockActive { remaining: (accounts[owner].unlock_time - now) as u64 })
    } else {
        Ok(accounts[owner].balance)
    }
}

/// The stored records after a single-lock `withdraw` call: on success the
/// record keeps every field but has `withdrawn` set; on failure nothing
/// changes.
pub open spec fn withdraw_account_map(
    accounts: Map<u64, TimeLockAccount>,
    owner: u64,
    now: u64,
    auth_ok: bool,
) -> Map<u64, TimeLockAccount> {
    if withdraw_account_outcome(accounts, owner, now, auth_ok) is Ok {
        accounts.insert(
            owner,
            TimeLockAccount {
                owner: accounts[owner].owner,
                balance: accounts[owner].balance,
                unlock_time: accounts[owner].unlock_time,
                withdrawn: true,
            },
        )
    } else {
        accounts
    }
}

/// What `check_account` returns: the stored record, or the zero-value
/// sentinel for a never-created owner.
pub open spec fn check_outcome(accounts: Map<u64, TimeLockAccount>, owner: u64)
    -> TimeLockAccount {
    if accounts.contains_key(owner) {
        accounts[owner]
    } else {
        empty_account(owner)
    }
}

/// The single-lock service: records are keyed by the owner identity, at
/// most one record per owner, and withdrawal pays back exactly the
/// principal.
///
/// Each operation takes the host collaborators' contributions as plain
/// arguments: `now` from the clock and `auth_ok` from the authentication
/// provider. Exclusive access per service value (`&mut self`) stands in
/// for the host's serialized execution: no two calls can interleave
/// between a read and its write.
pub struct TimeLockSavings {
    store: AccountStore,
}

impl TimeLockSavings {
    /// The stored records, as a map from owner identity to record.
    pub closed spec fn accounts(self) -> Map<u64, TimeLockAccount> {
        self.store.view()
    }

    /// The timestamp up to which the storage layer currently guarantees
    /// the records' survival.
    pub closed spec fn spec_retention_deadline(self) -> u64 {
        self.store.spec_retention_deadline()
    }

    pub closed spec fn spec_retention_window(self) -> u64 {
        self.store.spec_retention_window()
    }

    /// Every stored record is well formed and filed under its own owner.
    pub closed spec fn wf(self) -> bool {
        self.store.wf()
    }

    /// A fresh service with no records and the given retention window (a
    /// deployment parameter, not a correctness invariant).
    pub fn new(retention_window: u64) -> (s: Self)
        ensures
            s.wf(),
            s.accounts() == Map::<u64, TimeLockAccount>::empty(),
            s.spec_retention_window() == retention_window,
            s.spec_retention_deadline() == 0,
    {
        TimeLockSavings { store: AccountStore::new(retention_window) }
    }

    /// Deposits `amount` for `owner`, locked until `now + lock_duration`
    /// (the duration is given directly in seconds).
    ///
    /// `now` is the clock's current time and `auth_ok` whether the caller
    /// proved control of `owner`. On success the record is persisted under
    /// the owner's key and the retention window is refreshed; on failure
    /// nothing at all changes. An owner with an existing record — even an
    /// already-withdrawn one, which is never deleted — is refused with
    /// `DuplicateAccount`.
    pub fn deposit(&mut self, owner: u64, amount: i128, lock_duration: u64, now: u64, auth_ok: bool)
        -> (r: Result<(), LockError>)
        requires
            old(self).wf(),
            now + lock_duration <= u64::MAX,
        ensures
            final(self).wf(),
            r == deposit_outcome(old(self).accounts(), owner, amount, auth_ok),
            r is Ok ==> final(self).accounts() == old(self).accounts().insert(
                owner,
                fresh_account(owner, amount, lock_duration, now),
            ),
            r is Ok ==> final(self).spec_retention_deadline() == refreshed_retention(
                old(self).spec_retention_deadline(),
                now,
                old(self).spec_retention_window(),
            ),
            r is Err ==> *final(self) == *old(self),
            final(self).spec_retention_window() == old(self).spec_retention_window(),
    {
        if !auth_ok {
            return Err(LockError::Authorization);
        }
        if amount <= 0 {
            return Err(LockError::Validation);
        }
        let key = AccountStorage::Account(owner);
        let key_owner = key.owner_id();
        if self.store.contains(key_owner) {
            return Err(LockError::DuplicateAccount);
        }
        let unlock_time: u64 = now + lock_duration;
        let account = TimeLockAccount { owner, balance: amount, unlock_time, withdrawn: false };
        self.store.put(key_owner, account);
        self.store.extend_retention(now);
        Ok(())
    }

    /// Pays out `owner`'s record: exactly the deposited principal.
    ///
    /// Succeeds exactly when the caller authenticated as `owner`, a record
    /// exists, was never paid out before, and its unlock time has been
    /// reached. On success the record is marked withdrawn and persisted
    /// (never deleted) and the retention window is refreshed; on failure
    /// nothing at all changes, so a retry after success can never pay
    /// twice.
    pub fn withdraw(&mut self, owner: u64, now: u64, auth_ok: bool) -> (r: Result<i128, LockError>)
        requires
            old(self).wf(),
        ensures
            final(self).wf(),
            r == withdraw_account_outcome(old(self).accounts(), owner, now, auth_ok),
            final(self).accounts() == withdraw_account_map(
                old(self).accounts(),
                owner,
                now,
                auth_ok,
            ),
            r is Ok ==> final(self).spec_retention_deadline() == refreshed_retention(
                old(self).spec_retention_deadline(),
                now,
                old(self).spec_retention_window(),
            ),
            r is Err ==> *final(self) == *old(self),
            final(self).spec_retention_window() == old(self).spec_retention_window(),
    {
        if !auth_ok {
            return Err(LockError::Authorization);
        }
        let key = AccountStorage::Account(owner);
        let key_owner = key.owner_id();
        let mut account = match self.store.get(key_owner) {
            Some(a) => a,
            None => {
                return Err(LockError::NotFound);
            },
        };
        if account.withdrawn {
            return Err(LockError::AlreadyWithdrawn);
        }
        if now < account.unlock_time {
            return Err(LockError::LockActive { remaining: account.unlock_time - now });
        }
        let amount = account.balance;
        account.withdrawn = true;
        self.store.put(key_owner, account);
        self.store.extend_retention(now);
        Ok(amount)
    }

    /// Read-only lookup of `owner`'s record and status. A never-created
    /// owner gets the zero-value sentinel, not an error: "no account yet"
    /// is an ordinary answer in single-lock mode.
    pub fn check_account(&self, owner: u64) -> (r: TimeLockAccount)
        ensures
            r == check_outcome(self.accounts(), owner),
    {
        let key = AccountStorage::Account(owner);
        let key_owner = key.owner_id();
        match self.store.get(key_owner) {
            Some(a) => a,
            None => TimeLockAccount { owner, balance: 0, unlock_time: 0, withdrawn: false },
        }
    }

    /// The timestamp up to which the storage layer currently guarantees
    /// the records' survival.
    pub fn retention_deadline(&self) -> (r: u64)
        ensures
            r == self.spec_retention_deadline(),
    {
        self.store.retention_deadline()
    }
}

} // verus!
