use vstd::prelude::*;

verus! {

/// Why an operation was refused.
///
/// Every rejected precondition surfaces as its own variant so that callers
/// can discriminate causes; all are terminal for the call that raised them,
/// and no partial state is ever committed alongside one.
#[derive(Clone, Copy, Debug, PartialEq, Eq, Structural)]
pub enum LockError {
    /// A supplied amount was not strictly positive.
    Validation,
    /// The caller did not prove control of the claimed owner identity.
    Authorization,
    /// Single-lock mode: the owner already holds a record.
    DuplicateAccount,
    /// Multi-lock mode: the minted lock id is already in use.
    IdentityCollision,
    /// No record is stored under the presented key.
    NotFound,
    /// The caller authenticated, but as a principal other than the
    /// record's owner.
    OwnershipMismatch,
    /// The record's funds were already paid out.
    AlreadyWithdrawn,
    /// The unlock time has not been reached; `remaining` is the number of
    /// seconds still to wait.
    LockActive { remaining: u64 },
}

} // verus!
