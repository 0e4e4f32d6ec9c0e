//! Verified core of a lease lifecycle manager.
//!
//! A lease record is jointly activated by two parties — a manager and a
//! tenant — each contributing an authenticated signature, and is then driven
//! through a constrained set of terminal transitions. The state machine,
//! its authorization and validation rules, and the deterministic record
//! addressing live here; platform concerns (identity issuance, clocks,
//! replication) are the host's and enter only as plain parameters.

pub mod laws;
pub mod lease;
pub mod store;
