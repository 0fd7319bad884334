//! Transfer of the admin role. Only the current admin may hand it over, and
//! handing it to the identity already holding it is rejected.

use crate::error::ErrorCode;
use crate::state::{require_authorized, DistributorConfig};
use vstd::prelude::*;

verus! {

/// What one admin transfer reads and writes: the config and the caller.
#[derive(Clone, Copy, Debug)]
pub struct SetAdmin {
    /// The distribution config whose admin is replaced.
    pub config: DistributorConfig,
    /// The caller; must be the stored admin.
    pub admin: [u8; 32],
}

/// The outcome of handing the admin role to `new_admin`.
pub open spec fn set_admin_result(s: SetAdmin, new_admin: [u8; 32]) -> Result<(), ErrorCode> {
    if s.admin@ != s.config.admin@ {
        Err(ErrorCode::Unauthorized)
    } else if new_admin@ == s.config.admin@ {
        Err(ErrorCode::SameValue)
    } else {
        Ok(())
    }
}

/// The state after the transfer: on success only the admin identity changes;
/// on any error nothing changes.
pub open spec fn set_admin_next(s: SetAdmin, new_admin: [u8; 32]) -> SetAdmin {
    if set_admin_result(s, new_admin) is Ok {
        SetAdmin { config: DistributorConfig { admin: new_admin, ..s.config }, ..s }
    } else {
        s
    }
}

impl SetAdmin {
    /// Replaces the admin identity with `new_admin`.
    pub fn handle_set_admin(&mut self, new_admin: [u8; 32]) -> (r: Result<(), ErrorCode>)
        ensures
            r == set_admin_result(*old(self), new_admin),
            *final(self) == set_admin_next(*old(self), new_admin),
    {
        if let Err(e) = require_authorized(&self.admin, &self.config.admin) {
            return Err(e);
        }
        if crate::hash::bytes32_eq(&new_admin, &self.config.admin) {
            return Err(ErrorCode::SameValue);
        }
        self.config.admin = new_admin;
        Ok(())
    }
}

} // verus!
