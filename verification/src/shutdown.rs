//! Irreversible shutdown: the admin sets the one-way flag and sweeps the
//! whole remaining vault balance to the admin's own account.

use crate::claim::{claim_result, Claim};
use crate::error::ErrorCode;
use crate::state::{require_authorized, ClaimedRewards, DistributorConfig};
use vstd::prelude::*;

verus! {

/// What one shutdown reads and writes: the config, the vault balance at
/// operation time, and the caller identity.
#[derive(Clone, Copy, Debug)]
pub struct Shutdown {
    /// The distribution config being shut down.
    pub config: DistributorConfig,
    /// The custodial vault balance; the sweep empties it.
    pub vault_balance: u64,
    /// The caller; must be the stored admin.
    pub admin: [u8; 32],
}

/// The outcome of a shutdown: the amount swept to the admin, or
/// `Unauthorized` for anyone else.
pub open spec fn shutdown_result(s: Shutdown) -> Result<u64, ErrorCode> {
    if s.admin@ != s.config.admin@ {
        Err(ErrorCode::Unauthorized)
    } else {
        Ok(s.vault_balance)
    }
}

/// The state after a shutdown: on success the flag is set and the vault is
/// empty; on an unauthorized call nothing changes.
pub open spec fn shutdown_next(s: Shutdown) -> Shutdown {
    if shutdown_result(s) is Ok {
        Shutdown {
            config: DistributorConfig { shutdown: true, ..s.config },
            vault_balance: 0,
            ..s
        }
    } else {
        s
    }
}

impl Shutdown {
    /// Sets the one-way shutdown flag and returns the whole remaining vault
    /// balance as the amount the token ledger must sweep to the admin.
    pub fn handle_shutdown(&mut self) -> (r: Result<u64, ErrorCode>)
        ensures
            r == shutdown_result(*old(self)),
            *final(self) == shutdown_next(*old(self)),
    {
        if let Err(e) = require_authorized(&self.admin, &self.config.admin) {
            return Err(e);
        }
        self.config.shutdown = true;
        let swept = self.vault_balance;
        self.vault_balance = 0;
        Ok(swept)
    }
}

/// After a successful shutdown the vault is already empty, and any later
/// claim — whatever record, claimant, balance or proof it brings — fails
/// with `Shutdown` and changes nothing.
pub proof fn lemma_shutdown_halts_claims(
    s: Shutdown,
    record: ClaimedRewards,
    claimant: [u8; 32],
    vault_balance: u64,
    total_amount: u64,
    path: Seq<Seq<u8>>,
)
    requires
        shutdown_result(s) is Ok,
    ensures
        shutdown_next(s).config.shutdown,
        shutdown_next(s).vault_balance == 0,
        ({
            let later = Claim {
                config: shutdown_next(s).config,
                claimed_rewards: record,
                claimant,
                vault_balance,
            };
            claim_result(later, total_amount, path) == Err::<u64, ErrorCode>(ErrorCode::Shutdown)
        }),
{
}

} // verus!
