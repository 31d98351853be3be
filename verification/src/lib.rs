//! A time-locked savings ledger.
//!
//! A depositor commits an amount of value together with a lock duration and
//! may withdraw the principal (plus, in the interest-bearing variant, a flat
//! interest computed at withdrawal time) once the unlock time has elapsed.
//!
//! Two addressing modes share the same record and storage abstractions:
//!
//! * single-lock mode ([`savings::TimeLockSavings`]): records are keyed by
//!   the owner identity, at most one record per owner;
//! * multi-lock mode ([`locks::TimeLockContract`]): records are keyed by a
//!   minted sequence number, an owner may hold many records.
//!
//! The host environment (clock, authentication, event transport) is outside
//! this crate: operations take the current time, the freshly minted sequence
//! number and the authentication outcome as plain arguments, and report
//! emitted events and retention refreshes through their own state, so every
//! rule of the ledger is checked here for every host behaviour.

pub mod errors;
pub mod records;
pub mod store;
pub mod locks;
pub mod savings;
pub mod laws;
