use vstd::prelude::*;
use std::collections::HashMap;
use crate::records::{TimeLock, TimeLockAccount, lock_valid, account_valid};

verus! {

broadcast use vstd::std_specs::hash::group_hash_axioms;

/// The retention deadline after a refresh at `now` with the given window:
/// advanced to `now + window` (clamped to the representable range) unless
/// the old deadline already lies beyond it.
pub open spec fn refreshed_retention(old_deadline: u64, now: u64, window: u64) -> u64 {
    let target = if now + window <= u64::MAX {
        (now + window) as u64
    } else {
        u64::MAX
    };
    if target > old_deadline {
        target
    } else {
        old_deadline
    }
}

/// Durable keyed storage for multi-lock records, with an externally managed
/// retention window: every mutation is followed by a retention refresh so a
/// record written recently is not pruned prematurely.
pub struct LockStore {
    locks: HashMap<u64, TimeLock>,
    /// Deployment parameter: how far past a mutation the records are
    /// guaranteed to survive.
    retention_window: u64,
    /// The timestamp up to which survival of the stored records is
    /// currently guaranteed.
    retention_deadline: u64,
}

impl LockStore {
    /// The stored records, as a map from lock id to record.
    pub closed spec fn view(self) -> Map<u64, TimeLock> {
        self.locks@
    }

    pub closed spec fn spec_retention_window(self) -> u64 {
        self.retention_window
    }

    pub closed spec fn spec_retention_deadline(self) -> u64 {
        self.retention_deadline
    }

    /// Every stored record is well formed.
    pub open spec fn wf(self) -> bool {
        forall|k: u64| self.view().contains_key(k) ==> lock_valid(#[trigger] self.view()[k])
    }

    /// An empty store with the given retention window.
    pub fn new(retention_window: u64) -> (s: Self)
        ensures
            s.view() == Map::<u64, TimeLock>::empty(),
            s.wf(),
            s.spec_retention_window() == retention_window,
            s.spec_retention_deadline() == 0,
    {
        LockStore { locks: HashMap::new(), retention_window, retention_deadline: 0 }
    }

    /// Whether a record is stored under `key`.
    pub fn contains(&self, key: u64) -> (present: bool)
        ensures
            present == self.view().contains_key(key),
    {
        self.locks.contains_key(&key)
    }

    /// The record stored under `key`, independent of its withdrawn state;
    /// absence is no error, it is for the caller to judge.
    pub fn get(&self, key: u64) -> (r: Option<TimeLock>)
        ensures
            match r {
                Some(t) => self.view().contains_key(key) && t == self.view()[key],
                None => !self.view().contains_key(key),
            },
    {
        match self.locks.get(&key) {
            Some(t) => Some(*t),
            None => None,
        }
    }

    /// Unconditional upsert of `record` under `key`; read-modify-write
    /// atomicity is the service layer's responsibility.
    pub fn put(&mut self, key: u64, record: TimeLock)
        requires
            lock_valid(record),
        ensures
            final(self).view() == old(self).view().insert(key, record),
            old(self).wf() ==> final(self).wf(),
            final(self).spec_retention_window() == old(self).spec_retention_window(),
            final(self).spec_retention_deadline() == old(self).spec_retention_deadline(),
    {
        self.locks.insert(key, record);
    }

    /// The timestamp up to which survival of the stored records is
    /// currently guaranteed.
    pub fn retention_deadline(&self) -> (r: u64)
        ensures
            r == self.spec_retention_deadline(),
    {
        self.retention_deadline
    }

    /// Refreshes the retention guarantee after a mutation at time `now`:
    /// the deadline advances to `now` plus the configured window, and never
    /// moves backwards.
    pub fn extend_retention(&mut self, now: u64)
        ensures
            final(self).view() == old(self).view(),
            final(self).spec_retention_window() == old(self).spec_retention_window(),
            final(self).spec_retention_deadline() == refreshed_retention(
                old(self).spec_retention_deadline(),
                now,
                old(self).spec_retention_window(),
            ),
            final(self).spec_retention_deadline() >= old(self).spec_retention_deadline(),
    {
        let target: u64 = if now <= u64::MAX - self.retention_window {
            now + self.retention_window
        } else {
            u64::MAX
        };
        if target > self.retention_deadline {
            self.retention_deadline = target;
        }
    }
}

/// Durable keyed storage for single-lock records: the key is the owner
/// identity, so an owner holds at most one record.
pub struct AccountStore {
    accounts: HashMap<u64, TimeLockAccount>,
    retention_window: u64,
    retention_deadline: u64,
}

impl AccountStore {
    /// The stored records, as a map from owner identity to record.
    pub closed spec fn view(self) -> Map<u64, TimeLockAccount> {
        self.accounts@
    }

    pub closed spec fn spec_retention_window(self) -> u64 {
        self.retention_window
    }

    pub closed spec fn spec_retention_deadline(self) -> u64 {
        self.retention_deadline
    }

    /// Every stored record is well formed and filed under its own owner.
    pub open spec fn wf(self) -> bool {
        forall|k: u64| self.view().contains_key(k) ==> account_valid(#[trigger] self.view()[k])
            && self.view()[k].owner == k
    }

    /// An empty store with the given retention window.
    pub fn new(retention_window: u64) -> (s: Self)
        ensures
            s.view() == Map::<u64, TimeLockAccount>::empty(),
            s.wf(),
            s.spec_retention_window() == retention_window,
            s.spec_retention_deadline() == 0,
    {
        AccountStore { accounts: HashMap::new(), retention_window, retention_deadline: 0 }
    }

    /// Whether a record is stored for `owner`.
    pub fn contains(&self, owner: u64) -> (present: bool)
        ensures
            present == self.view().contains_key(owner),
    {
        self.accounts.contains_key(&owner)
    }

    /// The record stored for `owner`, independent of its withdrawn state.
    pub fn get(&self, owner: u64) -> (r: Option<TimeLockAccount>)
        ensures
            match r {
                Some(a) => self.view().contains_key(owner) && a == self.view()[owner],
                None => !self.view().contains_key(owner),
            },
    {
        match self.accounts.get(&owner) {
            Some(a) => Some(*a),
            None => None,
        }
    }

    /// Unconditional upsert of `record` under its owner's key.
    pub fn put(&mut self, owner: u64, record: TimeLockAccount)
        requires
            account_valid(record),
            record.owner == owner,
        ensures
            final(self).view() == old(self).view().insert(owner, record),
            old(self).wf() ==> final(self).wf(),
            final(self).spec_retention_window() == old(self).spec_retention_window(),
            final(self).spec_retention_deadline() == old(self).spec_retention_deadline(),
    {
        self.accounts.insert(owner, record);
    }

    /// The timestamp up to which survival of the stored records is
    /// currently guaranteed.
    pub fn retention_deadline(&self) -> (r: u64)
        ensures
            r == self.spec_retention_deadline(),
    {
        self.retention_deadline
    }

    /// Refreshes the retention guarantee after a mutation at time `now`.
    pub fn extend_retention(&mut self, now: u64)
        ensures
            final(self).view() == old(self).view(),
            final(self).spec_retention_window() == old(self).spec_retention_window(),
            final(self).spec_retention_deadline() == refreshed_retention(
                old(self).spec_retention_deadline(),
                now,
                old(self).spec_retention_window(),
            ),
            final(self).spec_retention_deadline() >= old(self).spec_retention_deadline(),
    {
        let target: u64 = if now <= u64::MAX - self.retention_window {
            now + self.retention_window
        } else {
            u64::MAX
        };
        if target > self.retention_deadline {
            self.retention_deadline = target;
        }
    }
}

} // verus!
