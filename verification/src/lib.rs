//! Reward-distribution ledger: a fixed pool of token funds is split pro-rata
//! among registrants according to a voting-weight snapshot, across a bounded
//! registration window and an unbounded claim window.

pub mod addin;
pub mod address;
pub mod claim;
pub mod claim_data;
pub mod create_distribution;
pub mod derivation;
pub mod distribution;
pub mod escrow;
pub mod error;
pub mod options;
pub mod preferences;
pub mod reclaim;
pub mod register;
pub mod update_registration;

pub use address::Address;
