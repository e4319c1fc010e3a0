//! A declarative file-provisioning reconciler.
//!
//! Desired filesystem states (a file or tree placed at a destination, copied
//! or symlinked, with normalized permission modes) are brought about with
//! minimal changes, and each affected path gets a structured result.
//!
//! The reconciliation protocol itself is pure decision logic and lives here,
//! verified: it is stated over a model of the filesystem entities an entry
//! touches (the destination, its parent directory, the source). The process
//! that probes and mutates the real filesystem feeds observed state in and
//! carries the decided mutations out.

pub mod fsmodel;
pub mod laws;
pub mod paths;
pub mod reconcile;
pub mod resolve;
pub mod result;
pub mod walk;
