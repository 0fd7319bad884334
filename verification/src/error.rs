use vstd::prelude::*;

verus! {

/// Every way an operation can fail. Each failure is terminal for the attempted
/// operation: the state is left exactly as it was.
#[derive(Clone, Copy, Debug, PartialEq, Eq, Structural)]
pub enum ErrorCode {
    /// The requested entitlement is not greater than the cumulative amount
    /// already claimed.
    AlreadyClaimed,
    /// The Merkle proof does not recompute the currently active root.
    InvalidProof,
    /// The caller identity does not match the required role.
    Unauthorized,
    /// An administrative update would store the value already present.
    SameValue,
    /// The distribution was irreversibly shut down.
    Shutdown,
    /// The vault cannot cover the delta that the claim would transfer.
    InsufficientBalance,
}

} // verus!
