//! A verified ledger for a small resource marketplace.
//!
//! A single project owns a collection of rentable resources. Participants
//! list resources, rent them, release them, and the project owner can close
//! the project. The ledger is the complete persistent state of one contract
//! instance; the host environment that invokes operations and persists the
//! state between invocations is outside this crate.

pub mod types;
pub mod model;
pub mod ledger;
pub mod laws;

pub use crate::types::{CloudProject, Resource, LedgerError};
pub use crate::ledger::CloudComputingContract;
