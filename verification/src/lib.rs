//! Synchronization and resumable-download engine for a purchased-item catalog.
//!
//! The library holds the decision logic of the engine: pagination of the
//! remote catalog, the single-retry authentication policy, resumable
//! byte-range transfers with monotonic progress reporting, and normalization
//! of downloaded archives. The host application performs the surrounding
//! network and filesystem work and drives these state machines with the
//! outcomes.

pub mod archive;
pub mod catalog;
pub mod command;
pub mod guard;
pub mod pagination;
pub mod scan;
pub mod session;
pub mod sync;
pub mod transfer;
