//! The claim operation: verify a Merkle proof for the claimant's cumulative
//! entitlement, enforce monotonic claim accounting, and authorize the delta
//! transfer out of the vault — plus the laws that hold of it.

use crate::error::ErrorCode;
use crate::merkle::{compute_leaf, leaf_digest, path_view, proof_verifies, verify_proof};
use crate::state::{ClaimedRewards, DistributorConfig};
use vstd::prelude::*;

verus! {

/// Everything one claim operation reads and writes: the config, the
/// claimant's record, the claimant identity (the signer), and the vault
/// balance as the token ledger reports it at operation time.
#[derive(Clone, Copy, Debug)]
pub struct Claim {
    /// The distribution config the claim runs against.
    pub config: DistributorConfig,
    /// The claimant's record; zero-initialized on a first claim.
    pub claimed_rewards: ClaimedRewards,
    /// The claimant identity, as committed into the tree leaves.
    pub claimant: [u8; 32],
    /// The custodial vault balance. A successful claim authorizes a transfer
    /// of exactly the returned delta, so this field is reduced by it.
    pub vault_balance: u64,
}

/// The outcome of a claim of `total_amount` with the given sibling path:
/// the delta to transfer, or the exact error, in the order the checks run.
pub open spec fn claim_result(s: Claim, total_amount: u64, path: Seq<Seq<u8>>) -> Result<
    u64,
    ErrorCode,
> {
    if s.config.shutdown {
        Err(ErrorCode::Shutdown)
    } else if total_amount <= s.claimed_rewards.claimed {
        Err(ErrorCode::AlreadyClaimed)
    } else if !proof_verifies(leaf_digest(s.claimant@, total_amount), path, s.config.root@) {
        Err(ErrorCode::InvalidProof)
    } else if s.vault_balance < total_amount - s.claimed_rewards.claimed {
        Err(ErrorCode::InsufficientBalance)
    } else {
        Ok((total_amount - s.claimed_rewards.claimed) as u64)
    }
}

/// The state after a claim: on success the record is raised to `total_amount`
/// and the vault loses the delta; on any error nothing changes.
pub open spec fn claim_next(s: Claim, total_amount: u64, path: Seq<Seq<u8>>) -> Claim {
    if claim_result(s, total_amount, path) is Ok {
        Claim {
            claimed_rewards: ClaimedRewards { claimed: total_amount },
            vault_balance: (s.vault_balance - (total_amount - s.claimed_rewards.claimed)) as u64,
            ..s
        }
    } else {
        s
    }
}

impl Claim {
    /// Verifies the proof against the current root, raises the claimant's
    /// cumulative record to `total_amount`, and returns the delta the token
    /// ledger must move from the vault to the claimant.
    pub fn handle_claim(&mut self, total_amount: u64, proof: Vec<[u8; 32]>) -> (r: Result<
        u64,
        ErrorCode,
    >)
        ensures
            r == claim_result(*old(self), total_amount, path_view(proof@)),
            *final(self) == claim_next(*old(self), total_amount, path_view(proof@)),
    {
        if self.config.shutdown {
            return Err(ErrorCode::Shutdown);
        }
        let already_claimed = self.claimed_rewards.claimed;
        if total_amount <= already_claimed {
            return Err(ErrorCode::AlreadyClaimed);
        }
        let leaf = compute_leaf(&self.claimant, total_amount);
        if !verify_proof(&leaf, &proof, &self.config.root) {
            return Err(ErrorCode::InvalidProof);
        }
        let amount = total_amount - already_claimed;
        if self.vault_balance < amount {
            return Err(ErrorCode::InsufficientBalance);
        }
        self.claimed_rewards.claimed = total_amount;
        self.vault_balance = self.vault_balance - amount;
        Ok(amount)
    }
}

/// One claim, successful or not, never lowers the cumulative record.
pub proof fn lemma_claim_never_decreases(s: Claim, total_amount: u64, path: Seq<Seq<u8>>)
    ensures
        claim_next(s, total_amount, path).claimed_rewards.claimed >= s.claimed_rewards.claimed,
{
}

/// The state after running a whole sequence of claim requests in order.
pub open spec fn run_claims(s: Claim, requests: Seq<(u64, Seq<Seq<u8>>)>) -> Claim
    decreases requests.len(),
{
    if requests.len() == 0 {
        s
    } else {
        run_claims(claim_next(s, requests[0].0, requests[0].1), requests.skip(1))
    }
}

/// The cumulative record is non-decreasing across any sequence of claims.
pub proof fn lemma_claims_monotonic(s: Claim, requests: Seq<(u64, Seq<Seq<u8>>)>)
    ensures
        run_claims(s, requests).claimed_rewards.claimed >= s.claimed_rewards.claimed,
    decreases requests.len(),
{
    if requests.len() > 0 {
        lemma_claims_monotonic(claim_next(s, requests[0].0, requests[0].1), requests.skip(1));
    }
}

/// Replay is rejected: once a claim of `total_amount` succeeded, claiming
/// `total_amount` again fails with `AlreadyClaimed`, whatever proof comes
/// with the second attempt.
pub proof fn lemma_replay_rejected(
    s: Claim,
    total_amount: u64,
    path: Seq<Seq<u8>>,
    second_path: Seq<Seq<u8>>,
)
    requires
        claim_result(s, total_amount, path) is Ok,
    ensures
        claim_result(claim_next(s, total_amount, path), total_amount, second_path) == Err::<
            u64,
            ErrorCode,
        >(ErrorCode::AlreadyClaimed),
{
}

/// A successful claim transfers exactly the newly certified delta, and the
/// record then stands at the full entitlement: a claimant whose entitlement
/// grew receives only the growth.
pub proof fn lemma_claim_transfers_delta(s: Claim, total_amount: u64, path: Seq<Seq<u8>>)
    requires
        claim_result(s, total_amount, path) is Ok,
    ensures
        claim_result(s, total_amount, path) == Ok::<u64, ErrorCode>(
            (total_amount - s.claimed_rewards.claimed) as u64,
        ),
        claim_next(s, total_amount, path).claimed_rewards.claimed == total_amount,
{
}

/// A failed claim changes nothing: not the record, not the vault, not the
/// config.
pub proof fn lemma_failed_claim_unchanged(s: Claim, total_amount: u64, path: Seq<Seq<u8>>)
    requires
        claim_result(s, total_amount, path) is Err,
    ensures
        claim_next(s, total_amount, path) == s,
{
}

/// After shutdown every claim fails with `Shutdown`, however valid its proof,
/// and changes nothing.
pub proof fn lemma_claim_after_shutdown(s: Claim, total_amount: u64, path: Seq<Seq<u8>>)
    requires
        s.config.shutdown,
    ensures
        claim_result(s, total_amount, path) == Err::<u64, ErrorCode>(ErrorCode::Shutdown),
        claim_next(s, total_amount, path) == s,
{
}

} // verus!
