//! Creation of the distribution config. Runs exactly once per distribution;
//! that it cannot run twice is the account-provisioning collaborator's
//! guarantee, outside this library.

use crate::state::DistributorConfig;
use vstd::prelude::*;

verus! {

/// The all-zero sentinel root: no entitlement verifies against it.
pub open spec fn zero_root() -> Seq<u8> {
    Seq::new(32, |i: int| 0u8)
}

/// Creates the config: the caller becomes admin, `updater` is recorded, the
/// root is the all-zero sentinel, and the distribution starts active.
pub fn handle_initialize(
    admin: [u8; 32],
    updater: [u8; 32],
    mint: [u8; 32],
    token_vault: [u8; 32],
) -> (config: DistributorConfig)
    ensures
        config.root@ == zero_root(),
        config.mint == mint,
        config.token_vault == token_vault,
        config.admin == admin,
        config.updater == updater,
        !config.shutdown,
{
    let config = DistributorConfig {
        root: [0u8; 32],
        mint,
        token_vault,
        admin,
        updater,
        shutdown: false,
    };
    proof {
        assert(config.root@ =~= zero_root());
    }
    config
}

} // verus!
