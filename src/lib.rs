//! A ledger of cross-border remittances: creation, completion and lookup of
//! transfer records over a keyed store.
//!
//! - `record`: the record, its status and the errors.
//! - `store`: the keyed store (transaction counter and records by identifier).
//! - `ledger`: the lifecycle state machine (`Pending` to `Complete`) and the
//!   ledger built on the store.
//! - `laws`: properties of the ledger over sequences of calls.
//!
//! Authorisation of the acting identity, the clock, retention of stored
//! entries and logging belong to the host and stay outside this crate.

use vstd::prelude::*;

pub mod record;
pub mod store;
pub mod ledger;
pub mod laws;

verus! {

} // verus!
