//! The persisted state: the singleton distribution config and the per-claimant
//! claim record, plus the one capability guard every role-gated operation uses.
//!
//! Identities (admin, updater, claimants) and account references (mint, vault)
//! are 32-byte public keys, held here as plain byte arrays.

use crate::error::ErrorCode;
use crate::hash::bytes32_eq;
use vstd::prelude::*;

verus! {

/// The singleton configuration of one deployed distribution.
#[derive(Clone, Copy, Debug)]
pub struct DistributorConfig {
    /// The currently active Merkle root. All-zero until the first update,
    /// so that no entitlement verifies before one is published.
    pub root: [u8; 32],
    /// The mint of the distributed token.
    pub mint: [u8; 32],
    /// The custodial token account holding the undistributed balance.
    pub token_vault: [u8; 32],
    /// The identity allowed to rotate roles and shut the distribution down.
    pub admin: [u8; 32],
    /// The identity allowed to publish a new root.
    pub updater: [u8; 32],
    /// One-way lifecycle flag: set exactly once, never cleared.
    pub shutdown: bool,
}

/// The per-claimant record, created lazily on first claim. A claimant with no
/// record yet is treated as having claimed zero.
#[derive(Clone, Copy, Debug)]
pub struct ClaimedRewards {
    /// Cumulative amount ever claimed; monotonically non-decreasing.
    pub claimed: u64,
}

/// The single capability check: every role-gated operation compares the
/// caller identity with the stored role identity through this guard.
pub fn require_authorized(caller: &[u8; 32], authority: &[u8; 32]) -> (r: Result<(), ErrorCode>)
    ensures
        r == (if caller@ == authority@ {
            Ok::<(), ErrorCode>(())
        } else {
            Err::<(), ErrorCode>(ErrorCode::Unauthorized)
        }),
{
    if bytes32_eq(caller, authority) {
        Ok(())
    } else {
        Err(ErrorCode::Unauthorized)
    }
}

} // verus!
