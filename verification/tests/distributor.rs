//! End-to-end tests: small Merkle trees are built with the same SHA-256 the
//! library calls, and the distribution state machine is driven through claims,
//! root updates, role transfers and shutdown.

use anchor_lang::solana_program::hash::hashv;
use rewards_distributor::claim::Claim;
use rewards_distributor::error::ErrorCode;
use rewards_distributor::initialize::handle_initialize;
use rewards_distributor::merkle::verify_proof;
use rewards_distributor::set_admin::SetAdmin;
use rewards_distributor::set_updater::SetUpdater;
use rewards_distributor::shutdown::Shutdown;
use rewards_distributor::state::{ClaimedRewards, DistributorConfig};
use rewards_distributor::update_root::UpdateRoot;

const ADMIN: [u8; 32] = [0xAA; 32];
const UPDATER: [u8; 32] = [0xBB; 32];
const MINT: [u8; 32] = [0xCC; 32];
const VAULT: [u8; 32] = [0xDD; 32];
const ALICE: [u8; 32] = [1; 32];
const BOB: [u8; 32] = [2; 32];

/// The raw leaf: SHA-256 of claimant identity followed by the amount big-endian.
fn leaf(claimant: &[u8; 32], amount: u64) -> [u8; 32] {
    hashv(&[claimant, &amount.to_be_bytes()]).to_bytes()
}

/// The additional hash applied to a leaf before folding.
fn leaf_node(claimant: &[u8; 32], amount: u64) -> [u8; 32] {
    hashv(&[&leaf(claimant, amount)]).to_bytes()
}

/// An internal node: the two children hashed with the smaller one first.
fn parent(a: &[u8; 32], b: &[u8; 32]) -> [u8; 32] {
    if a <= b {
        hashv(&[a, b]).to_bytes()
    } else {
        hashv(&[b, a]).to_bytes()
    }
}

fn fresh_config() -> DistributorConfig {
    handle_initialize(ADMIN, UPDATER, MINT, VAULT)
}

fn config_with_root(root: [u8; 32]) -> DistributorConfig {
    let mut config = fresh_config();
    let mut op = UpdateRoot { config, updater: UPDATER };
    assert_eq!(op.handle_update_root(root), Ok(()));
    config = op.config;
    config
}

/// A two-leaf tree entitling Alice and Bob; returns the root and the sibling
/// proofs for each.
fn two_leaf_tree(
    alice_amount: u64,
    bob_amount: u64,
) -> ([u8; 32], Vec<[u8; 32]>, Vec<[u8; 32]>) {
    let a = leaf_node(&ALICE, alice_amount);
    let b = leaf_node(&BOB, bob_amount);
    let root = parent(&a, &b);
    (root, vec![b], vec![a])
}

#[test]
fn initialize_sets_zero_root_and_roles() {
    let config = fresh_config();
    assert_eq!(config.root, [0u8; 32]);
    assert_eq!(config.mint, MINT);
    assert_eq!(config.token_vault, VAULT);
    assert_eq!(config.admin, ADMIN);
    assert_eq!(config.updater, UPDATER);
    assert!(!config.shutdown);
}

#[test]
fn verify_empty_path_is_one_extra_digest() {
    // SHA-256 of 32 zero bytes, fixed by the hash function itself: with an
    // empty path, verification is exactly one extra digest of the leaf.
    let expected: [u8; 32] = [
        102, 104, 122, 173, 248, 98, 189, 119, 108, 143, 193, 139, 142, 159, 142, 32, 8, 151,
        20, 133, 110, 226, 51, 179, 144, 42, 89, 29, 13, 95, 41, 37,
    ];
    assert!(verify_proof(&[0u8; 32], &vec![], &expected));
    assert!(!verify_proof(&[0u8; 32], &vec![], &[0u8; 32]));
}

#[test]
fn verify_two_leaf_tree_regardless_of_side() {
    let (root, alice_proof, bob_proof) = two_leaf_tree(100, 70);
    // The same root comes out whichever side each child stood on.
    let swapped = parent(&leaf_node(&BOB, 70), &leaf_node(&ALICE, 100));
    assert_eq!(root, swapped);
    assert!(verify_proof(&leaf(&ALICE, 100), &alice_proof, &root));
    assert!(verify_proof(&leaf(&BOB, 70), &bob_proof, &root));
    // A proof for one leaf does not verify the other.
    assert!(!verify_proof(&leaf(&ALICE, 100), &bob_proof, &root));
}

#[test]
fn verify_four_leaf_tree() {
    let carol: [u8; 32] = [3; 32];
    let dave: [u8; 32] = [4; 32];
    let a = leaf_node(&ALICE, 10);
    let b = leaf_node(&BOB, 20);
    let c = leaf_node(&carol, 30);
    let d = leaf_node(&dave, 40);
    let ab = parent(&a, &b);
    let cd = parent(&c, &d);
    let root = parent(&ab, &cd);
    assert!(verify_proof(&leaf(&ALICE, 10), &vec![b, cd], &root));
    assert!(verify_proof(&leaf(&dave, 40), &vec![c, ab], &root));
    assert!(!verify_proof(&leaf(&dave, 41), &vec![c, ab], &root));
}

#[test]
fn first_claim_transfers_full_entitlement() {
    let (root, alice_proof, _) = two_leaf_tree(100, 70);
    let mut op = Claim {
        config: config_with_root(root),
        claimed_rewards: ClaimedRewards { claimed: 0 },
        claimant: ALICE,
        vault_balance: 1000,
    };
    assert_eq!(op.handle_claim(100, alice_proof), Ok(100));
    assert_eq!(op.claimed_rewards.claimed, 100);
    assert_eq!(op.vault_balance, 900);
}

#[test]
fn second_claim_of_same_amount_fails_already_claimed() {
    let (root, alice_proof, _) = two_leaf_tree(100, 70);
    let mut op = Claim {
        config: config_with_root(root),
        claimed_rewards: ClaimedRewards { claimed: 0 },
        claimant: ALICE,
        vault_balance: 1000,
    };
    assert_eq!(op.handle_claim(100, alice_proof.clone()), Ok(100));
    assert_eq!(op.handle_claim(100, alice_proof), Err(ErrorCode::AlreadyClaimed));
    assert_eq!(op.claimed_rewards.claimed, 100);
    assert_eq!(op.vault_balance, 900);
}

#[test]
fn raised_entitlement_transfers_only_the_delta() {
    // Alice is entitled to 100, claims it, then a new root raises her
    // entitlement to 150: the second claim moves exactly 50.
    let (root1, alice_proof1, _) = two_leaf_tree(100, 70);
    let mut op = Claim {
        config: config_with_root(root1),
        claimed_rewards: ClaimedRewards { claimed: 0 },
        claimant: ALICE,
        vault_balance: 1000,
    };
    assert_eq!(op.handle_claim(100, alice_proof1), Ok(100));

    let (root2, alice_proof2, _) = two_leaf_tree(150, 70);
    let mut update = UpdateRoot { config: op.config, updater: UPDATER };
    assert_eq!(update.handle_update_root(root2), Ok(()));
    op.config = update.config;

    assert_eq!(op.handle_claim(150, alice_proof2), Ok(50));
    assert_eq!(op.claimed_rewards.claimed, 150);
    assert_eq!(op.vault_balance, 850);
}

#[test]
fn superseded_root_invalidates_old_proofs() {
    let (root1, alice_proof1, _) = two_leaf_tree(100, 70);
    let (root2, _, _) = two_leaf_tree(150, 70);
    let mut op = Claim {
        config: config_with_root(root2),
        claimed_rewards: ClaimedRewards { claimed: 0 },
        claimant: ALICE,
        vault_balance: 1000,
    };
    assert_ne!(root1, root2);
    assert_eq!(op.handle_claim(100, alice_proof1), Err(ErrorCode::InvalidProof));
}

#[test]
fn tampered_proof_fails_and_changes_nothing() {
    let (root, mut alice_proof, _) = two_leaf_tree(100, 70);
    alice_proof[0][7] ^= 0x01;
    let mut op = Claim {
        config: config_with_root(root),
        claimed_rewards: ClaimedRewards { claimed: 0 },
        claimant: ALICE,
        vault_balance: 1000,
    };
    assert_eq!(op.handle_claim(100, alice_proof), Err(ErrorCode::InvalidProof));
    assert_eq!(op.claimed_rewards.claimed, 0);
    assert_eq!(op.vault_balance, 1000);
}

#[test]
fn no_entitlement_verifies_before_the_first_root() {
    let (_, alice_proof, _) = two_leaf_tree(100, 70);
    let mut op = Claim {
        config: fresh_config(),
        claimed_rewards: ClaimedRewards { claimed: 0 },
        claimant: ALICE,
        vault_balance: 1000,
    };
    assert_eq!(op.handle_claim(100, alice_proof), Err(ErrorCode::InvalidProof));
}

#[test]
fn claim_beyond_vault_balance_fails_insufficient() {
    let (root, alice_proof, _) = two_leaf_tree(100, 70);
    let mut op = Claim {
        config: config_with_root(root),
        claimed_rewards: ClaimedRewards { claimed: 0 },
        claimant: ALICE,
        vault_balance: 99,
    };
    assert_eq!(op.handle_claim(100, alice_proof), Err(ErrorCode::InsufficientBalance));
    assert_eq!(op.claimed_rewards.claimed, 0);
    assert_eq!(op.vault_balance, 99);
}

#[test]
fn shutdown_sweeps_vault_and_blocks_claims() {
    let (root, alice_proof, _) = two_leaf_tree(100, 70);
    let config = config_with_root(root);
    let mut down = Shutdown { config, vault_balance: 1000, admin: ADMIN };
    assert_eq!(down.handle_shutdown(), Ok(1000));
    assert!(down.config.shutdown);
    assert_eq!(down.vault_balance, 0);

    let mut op = Claim {
        config: down.config,
        claimed_rewards: ClaimedRewards { claimed: 0 },
        claimant: ALICE,
        vault_balance: down.vault_balance,
    };
    assert_eq!(op.handle_claim(100, alice_proof), Err(ErrorCode::Shutdown));
    assert_eq!(op.claimed_rewards.claimed, 0);
}

#[test]
fn shutdown_requires_admin() {
    let mut down = Shutdown { config: fresh_config(), vault_balance: 500, admin: BOB };
    assert_eq!(down.handle_shutdown(), Err(ErrorCode::Unauthorized));
    assert!(!down.config.shutdown);
    assert_eq!(down.vault_balance, 500);
}

#[test]
fn update_root_with_active_root_fails_same_value() {
    let (root, _, _) = two_leaf_tree(100, 70);
    let mut op = UpdateRoot { config: config_with_root(root), updater: UPDATER };
    assert_eq!(op.handle_update_root(root), Err(ErrorCode::SameValue));
    assert_eq!(op.config.root, root);
}

#[test]
fn update_root_requires_updater() {
    let (root, _, _) = two_leaf_tree(100, 70);
    let mut op = UpdateRoot { config: fresh_config(), updater: ADMIN };
    assert_eq!(op.handle_update_root(root), Err(ErrorCode::Unauthorized));
    assert_eq!(op.config.root, [0u8; 32]);
}

#[test]
fn set_admin_replaces_only_the_admin() {
    let mut op = SetAdmin { config: fresh_config(), admin: ADMIN };
    assert_eq!(op.handle_set_admin(BOB), Ok(()));
    assert_eq!(op.config.admin, BOB);
    assert_eq!(op.config.updater, UPDATER);
}

#[test]
fn set_admin_rejects_same_value_and_strangers() {
    let mut op = SetAdmin { config: fresh_config(), admin: ADMIN };
    assert_eq!(op.handle_set_admin(ADMIN), Err(ErrorCode::SameValue));
    let mut stranger = SetAdmin { config: fresh_config(), admin: BOB };
    assert_eq!(stranger.handle_set_admin(BOB), Err(ErrorCode::Unauthorized));
    assert_eq!(stranger.config.admin, ADMIN);
}

#[test]
fn set_updater_replaces_only_the_updater() {
    let mut op = SetUpdater { config: fresh_config(), admin: ADMIN };
    assert_eq!(op.handle_set_updater(BOB), Ok(()));
    assert_eq!(op.config.updater, BOB);
    assert_eq!(op.config.admin, ADMIN);
}

#[test]
fn set_updater_rejects_same_value_and_strangers() {
    let mut op = SetUpdater { config: fresh_config(), admin: ADMIN };
    assert_eq!(op.handle_set_updater(UPDATER), Err(ErrorCode::SameValue));
    let mut stranger = SetUpdater { config: fresh_config(), admin: UPDATER };
    assert_eq!(stranger.handle_set_updater(BOB), Err(ErrorCode::Unauthorized));
    assert_eq!(stranger.config.updater, UPDATER);
}

#[test]
fn claims_never_lower_the_record() {
    let (root, alice_proof, _) = two_leaf_tree(100, 70);
    let mut op = Claim {
        config: config_with_root(root),
        claimed_rewards: ClaimedRewards { claimed: 0 },
        claimant: ALICE,
        vault_balance: 1000,
    };
    let attempts: Vec<(u64, Vec<[u8; 32]>)> = vec![
        (100, alice_proof.clone()),
        (90, alice_proof.clone()),
        (100, alice_proof.clone()),
        (170, alice_proof),
    ];
    let mut last: u64 = 0;
    for (amount, proof) in attempts {
        let _ = op.handle_claim(amount, proof);
        assert!(op.claimed_rewards.claimed >= last);
        last = op.claimed_rewards.claimed;
    }
    assert_eq!(op.claimed_rewards.claimed, 100);
}
