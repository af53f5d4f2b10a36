//! HORUS: time-boxed, query-scoped access to encrypted datasets, settled
//! per answered query from an escrow.
//!
//! The crate is organised by protocol layer:
//! - [`types`]: shared vocabulary (keys, scopes, errors);
//! - [`encoding`]: little-endian byte layouts and byte-string comparison;
//! - [`crypto`]: predicate commitments and signature checks;
//! - [`access`]: bearer capabilities and their verification rules;
//! - [`settlement`]: escrow claims, fees and refunds;
//! - [`registry`]: listings and their commitments;
//! - [`gateway`]: one query, end to end;
//! - [`zk`]: predicate proofs (the entry points report the feature as disabled);
//! - [`sdk`]: client helpers.

pub mod encoding;
pub mod types;
pub mod crypto;
pub mod access;
pub mod settlement;
pub mod registry;
pub mod gateway;
pub mod zk;
pub mod sdk;
