//! Transfer of the updater role. Only the admin may assign it, and assigning
//! the identity already holding it is rejected.

use crate::error::ErrorCode;
use crate::state::{require_authorized, DistributorConfig};
use vstd::prelude::*;

verus! {

/// What one updater transfer reads and writes: the config and the caller.
#[derive(Clone, Copy, Debug)]
pub struct SetUpdater {
    /// The distribution config whose updater is replaced.
    pub config: DistributorConfig,
    /// The caller; must be the stored admin.
    pub admin: [u8; 32],
}

/// The outcome of handing the updater role to `new_updater`.
pub open spec fn set_updater_result(s: SetUpdater, new_updater: [u8; 32]) -> Result<
    (),
    ErrorCode,
> {
    if s.admin@ != s.config.admin@ {
        Err(ErrorCode::Unauthorized)
    } else if new_updater@ == s.config.updater@ {
        Err(ErrorCode::SameValue)
    } else {
        Ok(())
    }
}

/// The state after the transfer: on success only the updater identity
/// changes; on any error nothing changes.
pub open spec fn set_updater_next(s: SetUpdater, new_updater: [u8; 32]) -> SetUpdater {
    if set_updater_result(s, new_updater) is Ok {
        SetUpdater { config: DistributorConfig { updater: new_updater, ..s.config }, ..s }
    } else {
        s
    }
}

impl SetUpdater {
    /// Replaces the updater identity with `new_updater`.
    pub fn handle_set_updater(&mut self, new_updater: [u8; 32]) -> (r: Result<(), ErrorCode>)
        ensures
            r == set_updater_result(*old(self), new_updater),
            *final(self) == set_updater_next(*old(self), new_updater),
    {
        if let Err(e) = require_authorized(&self.admin, &self.config.admin) {
            return Err(e);
        }
        if crate::hash::bytes32_eq(&new_updater, &self.config.updater) {
            return Err(ErrorCode::SameValue);
        }
        self.config.updater = new_updater;
        Ok(())
    }
}

} // verus!
