//! A Merkle-committed rewards distribution library.
//!
//! Claimants withdraw a cumulative, Merkle-committed entitlement from a shared
//! custodial vault. The Merkle root is published by an updater identity and may
//! grow entitlements over time; a per-claimant record of the cumulative amount
//! already claimed prevents double-spending across root updates. An admin
//! identity may rotate roles and irreversibly shut the distribution down,
//! sweeping the remaining vault balance.

pub mod claim;
pub mod error;
pub mod hash;
pub mod initialize;
pub mod merkle;
pub mod set_admin;
pub mod set_updater;
pub mod shutdown;
pub mod state;
pub mod update_root;
