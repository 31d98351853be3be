use vstd::prelude::*;

verus! {

/// Seconds in one whole day, the factor converting day-denominated lock
/// periods into seconds.
pub const SECONDS_PER_DAY: u64 = 86400;

/// A single-lock-mode record: one deposit per owner, paying back exactly the
/// principal. The owner identity itself is the storage key.
#[derive(Clone, Copy, Debug, PartialEq, Eq, Structural)]
pub struct TimeLockAccount {
    /// Identity of the depositor; never reassigned after creation.
    pub owner: u64,
    /// Deposited principal; strictly positive in every stored record.
    pub balance: i128,
    /// Absolute timestamp (seconds) at or after which withdrawal is allowed.
    pub unlock_time: u64,
    /// Set true exactly once, by a successful withdrawal; never reverts.
    pub withdrawn: bool,
}

/// A multi-lock-mode record: keyed by a minted sequence number, paying back
/// the principal plus a flat interest computed at withdrawal time.
#[derive(Clone, Copy, Debug, PartialEq, Eq, Structural)]
pub struct TimeLock {
    /// Identity of the depositor; never reassigned after creation.
    pub owner: u64,
    /// Deposited principal; strictly positive in every stored record.
    pub amount: i128,
    /// Absolute timestamp (seconds) at or after which withdrawal is allowed.
    pub unlock_time: u64,
    /// Interest rate in whole percent, applied once at withdrawal.
    pub interest_rate: u32,
    /// Set true exactly once, by a successful withdrawal; never reverts.
    pub withdrawn: bool,
}

/// The single-lock-mode storage key: the owner identity, tagged.
#[derive(Clone, Copy, Debug, PartialEq, Eq, Structural)]
pub enum AccountStorage {
    Account(u64),
}

impl AccountStorage {
    /// The owner identity this key addresses.
    pub open spec fn spec_owner(self) -> u64 {
        match self {
            AccountStorage::Account(owner) => owner,
        }
    }

    /// The owner identity this key addresses.
    pub fn owner_id(&self) -> (owner: u64)
        ensures
            owner == self.spec_owner(),
    {
        match self {
            AccountStorage::Account(owner) => *owner,
        }
    }
}

/// Interest owed on `amount` at `rate` whole percent, rounded toward zero.
/// For a positive `amount` the euclidean division written here coincides
/// with truncation.
pub open spec fn interest_of(amount: i128, rate: u32) -> int {
    (amount * rate) / 100
}

/// Total amount a withdrawal pays: principal plus interest.
pub open spec fn return_of(amount: i128, rate: u32) -> int {
    amount + interest_of(amount, rate)
}

/// Well-formedness of a stored multi-lock record: the principal is strictly
/// positive and the interest computation cannot overflow `i128`.
pub open spec fn lock_valid(t: TimeLock) -> bool {
    &&& t.amount > 0
    &&& t.amount * t.interest_rate <= i128::MAX
    &&& return_of(t.amount, t.interest_rate) <= i128::MAX
}

/// Well-formedness of a stored single-lock record: the principal is strictly
/// positive and the record sits under its own owner's key.
pub open spec fn account_valid(a: TimeLockAccount) -> bool {
    a.balance > 0
}

/// Whether a record with the given unlock time may be withdrawn at `now`.
pub open spec fn unlocked_at(unlock_time: u64, now: u64) -> bool {
    now >= unlock_time
}

/// Computes the exact payout of a multi-lock record: principal plus
/// truncated flat interest, entirely in `i128` arithmetic.
pub fn lock_return(t: &TimeLock) -> (r: i128)
    requires
        lock_valid(*t),
    ensures
        r == return_of(t.amount, t.interest_rate),
        r >= t.amount,
{
    let interest: i128 = (t.amount * (t.interest_rate as i128)) / 100;
    t.amount + interest
}

} // verus!
