//! Publication of a new Merkle root. Only the updater may publish; a root
//! equal to the active one is rejected, so a non-event never passes silently.

use crate::error::ErrorCode;
use crate::state::{require_authorized, DistributorConfig};
use vstd::prelude::*;

verus! {

/// What one root update reads and writes: the config and the caller identity.
#[derive(Clone, Copy, Debug)]
pub struct UpdateRoot {
    /// The distribution config whose root is replaced.
    pub config: DistributorConfig,
    /// The caller; must be the stored updater.
    pub updater: [u8; 32],
}

/// The outcome of publishing `new_root`: `Unauthorized` for anyone but the
/// updater, `SameValue` for the active root, success otherwise.
pub open spec fn update_root_result(s: UpdateRoot, new_root: [u8; 32]) -> Result<(), ErrorCode> {
    if s.updater@ != s.config.updater@ {
        Err(ErrorCode::Unauthorized)
    } else if new_root@ == s.config.root@ {
        Err(ErrorCode::SameValue)
    } else {
        Ok(())
    }
}

/// The state after the update: on success the root is replaced atomically
/// and nothing else moves; on any error nothing changes.
pub open spec fn update_root_next(s: UpdateRoot, new_root: [u8; 32]) -> UpdateRoot {
    if update_root_result(s, new_root) is Ok {
        UpdateRoot { config: DistributorConfig { root: new_root, ..s.config }, ..s }
    } else {
        s
    }
}

impl UpdateRoot {
    /// Replaces the active root with `new_root`. Every proof issued against
    /// the old root stops verifying from here on.
    pub fn handle_update_root(&mut self, new_root: [u8; 32]) -> (r: Result<(), ErrorCode>)
        ensures
            r == update_root_result(*old(self), new_root),
            *final(self) == update_root_next(*old(self), new_root),
    {
        if let Err(e) = require_authorized(&self.updater, &self.config.updater) {
            return Err(e);
        }
        if crate::hash::bytes32_eq(&self.config.root, &new_root) {
            return Err(ErrorCode::SameValue);
        }
        self.config.root = new_root;
        Ok(())
    }
}

/// Publishing the root already active fails with `SameValue` and leaves the
/// config untouched.
pub proof fn lemma_same_root_rejected(s: UpdateRoot)
    requires
        s.updater@ == s.config.updater@,
    ensures
        update_root_result(s, s.config.root) == Err::<(), ErrorCode>(ErrorCode::SameValue),
        update_root_next(s, s.config.root) == s,
{
}

} // verus!
