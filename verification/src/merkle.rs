//! The proof verifier: recomputes a Merkle root from a leaf and a sibling
//! path by sorted-pair hashing, and states what the recomputation means.
//!
//! Convention fixed for this library (it is part of the deployed system's
//! external contract and must match how the tree was built off-system): the
//! leaf is the digest of `claimant identity || entitlement amount, big-endian`,
//! and one additional digest is applied to the leaf before folding.

use crate::hash::{
    bytes32_eq, bytes32_le, lemma_lex_le_antisymmetric, lemma_lex_le_total, lex_le, push_bytes32,
    push_u64_be, sha256_digest, sha256_of, u64_be_bytes,
};
use vstd::prelude::*;

verus! {

/// The digest of an internal node: the two children are hashed with the
/// lexicographically smaller digest first, whichever side each child came
/// from in the tree.
pub open spec fn node_digest(a: Seq<u8>, b: Seq<u8>) -> Seq<u8> {
    if lex_le(a, b) {
        sha256_of(a + b)
    } else {
        sha256_of(b + a)
    }
}

/// Folds a sibling path onto an accumulator, one sorted-pair digest per level.
pub open spec fn fold_path(acc: Seq<u8>, path: Seq<Seq<u8>>) -> Seq<u8>
    decreases path.len(),
{
    if path.len() == 0 {
        acc
    } else {
        fold_path(node_digest(acc, path[0]), path.skip(1))
    }
}

/// A sibling path of 32-byte digests, as byte sequences.
pub open spec fn path_view(path: Seq<[u8; 32]>) -> Seq<Seq<u8>> {
    path.map_values(|h: [u8; 32]| h@)
}

/// The raw leaf committed for `(claimant, amount)`: the digest of the
/// claimant identity followed by the amount in big-endian.
pub open spec fn leaf_digest(claimant: Seq<u8>, amount: u64) -> Seq<u8> {
    sha256_of(claimant + u64_be_bytes(amount))
}

/// What verification means: hashing the leaf once more and folding the path
/// reproduces the root.
pub open spec fn proof_verifies(leaf: Seq<u8>, path: Seq<Seq<u8>>, root: Seq<u8>) -> bool {
    fold_path(sha256_of(leaf), path) == root
}

/// Extending a path by one sibling adds one sorted-pair digest at the end.
pub proof fn lemma_fold_path_snoc(acc: Seq<u8>, path: Seq<Seq<u8>>, sibling: Seq<u8>)
    ensures
        fold_path(acc, path.push(sibling)) == node_digest(fold_path(acc, path), sibling),
    decreases path.len(),
{
    if path.len() == 0 {
        assert(path.push(sibling)[0] == sibling);
        assert(path.push(sibling).skip(1) =~= Seq::<Seq<u8>>::empty());
        assert(fold_path(acc, path.push(sibling)) == fold_path(
            node_digest(acc, sibling),
            path.push(sibling).skip(1),
        ));
        assert(fold_path(node_digest(acc, sibling), path.push(sibling).skip(1)) == node_digest(
            acc,
            sibling,
        ));
        assert(fold_path(acc, path) == acc);
    } else {
        assert(path.push(sibling)[0] == path[0]);
        assert(path.push(sibling).skip(1) =~= path.skip(1).push(sibling));
        lemma_fold_path_snoc(node_digest(acc, path[0]), path.skip(1), sibling);
        assert(fold_path(acc, path.push(sibling)) == fold_path(
            node_digest(acc, path[0]),
            path.skip(1).push(sibling),
        ));
        assert(fold_path(acc, path) == fold_path(node_digest(acc, path[0]), path.skip(1)));
    }
}

/// Sorted-pair hashing is commutative per level: a node digest does not
/// depend on which side each of the two equal-length children stood on.
pub proof fn lemma_node_digest_commutes(a: Seq<u8>, b: Seq<u8>)
    requires
        a.len() == b.len(),
    ensures
        node_digest(a, b) == node_digest(b, a),
{
    lemma_lex_le_total(a, b);
    if lex_le(a, b) && lex_le(b, a) {
        lemma_lex_le_antisymmetric(a, b);
    }
}

/// Computes the raw leaf for `(claimant, amount)`.
pub fn compute_leaf(claimant: &[u8; 32], amount: u64) -> (r: [u8; 32])
    ensures
        r@ == leaf_digest(claimant@, amount),
{
    let mut buf: Vec<u8> = Vec::new();
    push_bytes32(&mut buf, claimant);
    push_u64_be(&mut buf, amount);
    sha256_digest(buf.as_slice())
}

/// Recomputes a root from `leaf` and `proof` and compares it with `root`.
/// The leaf is hashed once more before the fold, then each sibling is
/// absorbed by sorted-pair hashing; the result is the comparison with `root`.
pub fn verify_proof(leaf: &[u8; 32], proof: &Vec<[u8; 32]>, root: &[u8; 32]) -> (r: bool)
    ensures
        r == proof_verifies(leaf@, path_view(proof@), root@),
{
    let mut acc: [u8; 32] = sha256_digest(vstd::array::array_as_slice(leaf));
    let mut i: usize = 0;
    while i < proof.len()
        invariant
            0 <= i <= proof.len(),
            acc@ == fold_path(sha256_of(leaf@), path_view(proof@).take(i as int)),
        decreases proof.len() - i,
    {
        let sibling: [u8; 32] = proof[i];
        let mut buf: Vec<u8> = Vec::new();
        if bytes32_le(&acc, &sibling) {
            push_bytes32(&mut buf, &acc);
            push_bytes32(&mut buf, &sibling);
        } else {
            push_bytes32(&mut buf, &sibling);
            push_bytes32(&mut buf, &acc);
        }
        let next = sha256_digest(buf.as_slice());
        proof {
            assert(next@ == node_digest(acc@, sibling@));
            lemma_fold_path_snoc(sha256_of(leaf@), path_view(proof@).take(i as int), sibling@);
            assert(path_view(proof@).take(i as int).push(sibling@) =~= path_view(proof@).take(
                i as int + 1,
            ));
        }
        acc = next;
        i += 1;
    }
    proof {
        assert(path_view(proof@).take(proof@.len() as int) =~= path_view(proof@));
    }
    bytes32_eq(&acc, root)
}

} // verus!
