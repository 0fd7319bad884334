//! The hash primitive and the byte-level helpers the Merkle verifier needs:
//! the SHA-256 digest (named, computed by the outside crate), big-endian
//! encoding of amounts, and lexicographic comparison of digests.

use vstd::prelude::*;

verus! {

/// The SHA-256 digest of a byte sequence. The algorithm itself is not written
/// out here; the digest is named, and every executable hash goes through the
/// one trusted wrapper below.
pub uninterp spec fn sha256_of(data: Seq<u8>) -> Seq<u8>;

/// Relies on `anchor_lang::solana_program::hash::hash`: the SHA-256 digest of
/// the given bytes, a function of the input bytes alone.
#[verifier::external_body]
pub(crate) fn sha256_digest(data: &[u8]) -> (r: [u8; 32])
    ensures
        r@ == sha256_of(data@),
{
    anchor_lang::solana_program::hash::hash(data).to_bytes()
}

/// The eight bytes of `x` in big-endian order.
pub open spec fn u64_be_bytes(x: u64) -> Seq<u8> {
    seq![
        ((x >> 56) & 0xff) as u8,
        ((x >> 48) & 0xff) as u8,
        ((x >> 40) & 0xff) as u8,
        ((x >> 32) & 0xff) as u8,
        ((x >> 24) & 0xff) as u8,
        ((x >> 16) & 0xff) as u8,
        ((x >> 8) & 0xff) as u8,
        (x & 0xff) as u8,
    ]
}

/// Appends the big-endian encoding of `x` to `buf`.
pub fn push_u64_be(buf: &mut Vec<u8>, x: u64)
    ensures
        final(buf)@ == old(buf)@ + u64_be_bytes(x),
{
    buf.push(((x >> 56) & 0xff) as u8);
    buf.push(((x >> 48) & 0xff) as u8);
    buf.push(((x >> 40) & 0xff) as u8);
    buf.push(((x >> 32) & 0xff) as u8);
    buf.push(((x >> 24) & 0xff) as u8);
    buf.push(((x >> 16) & 0xff) as u8);
    buf.push(((x >> 8) & 0xff) as u8);
    buf.push((x & 0xff) as u8);
    proof {
        assert(buf@ =~= old(buf)@ + u64_be_bytes(x));
    }
}

/// Appends all 32 bytes of `bytes` to `buf`.
pub fn push_bytes32(buf: &mut Vec<u8>, bytes: &[u8; 32])
    ensures
        final(buf)@ == old(buf)@ + bytes@,
{
    let ghost start = buf@;
    let mut i: usize = 0;
    while i < 32
        invariant
            0 <= i <= 32,
            buf@ == start + bytes@.take(i as int),
        decreases 32 - i,
    {
        buf.push(bytes[i]);
        proof {
            assert(buf@ =~= start + bytes@.take(i as int + 1));
        }
        i += 1;
    }
    proof {
        assert(bytes@.take(32) =~= bytes@);
    }
}

/// `a` is lexicographically at most `b`: the order std gives byte slices, and
/// the order in which the verifier sorts each hashed pair.
pub open spec fn lex_le(a: Seq<u8>, b: Seq<u8>) -> bool
    decreases a.len(),
{
    if a.len() == 0 {
        true
    } else if b.len() == 0 {
        false
    } else if a[0] < b[0] {
        true
    } else if a[0] > b[0] {
        false
    } else {
        lex_le(a.skip(1), b.skip(1))
    }
}

/// A shared prefix does not decide the comparison: it is settled by the rest.
pub proof fn lemma_lex_le_common_prefix(a: Seq<u8>, b: Seq<u8>, i: int)
    requires
        0 <= i <= a.len(),
        i <= b.len(),
        forall|j: int| 0 <= j < i ==> a[j] == b[j],
    ensures
        lex_le(a, b) == lex_le(a.skip(i), b.skip(i)),
    decreases i,
{
    if i > 0 {
        assert(a[0] == b[0]);
        assert forall|j: int| 0 <= j < i - 1 implies a.skip(1)[j] == b.skip(1)[j] by {
            assert(a.skip(1)[j] == a[j + 1]);
            assert(b.skip(1)[j] == b[j + 1]);
        }
        lemma_lex_le_common_prefix(a.skip(1), b.skip(1), i - 1);
        assert(a.skip(1).skip(i - 1) =~= a.skip(i));
        assert(b.skip(1).skip(i - 1) =~= b.skip(i));
        assert(lex_le(a, b) == lex_le(a.skip(1), b.skip(1)));
    } else {
        assert(a.skip(0) =~= a);
        assert(b.skip(0) =~= b);
    }
}

/// Of two digests of equal length, at least one is lexicographically at most
/// the other.
pub proof fn lemma_lex_le_total(a: Seq<u8>, b: Seq<u8>)
    requires
        a.len() == b.len(),
    ensures
        lex_le(a, b) || lex_le(b, a),
    decreases a.len(),
{
    if a.len() > 0 && a[0] == b[0] {
        lemma_lex_le_total(a.skip(1), b.skip(1));
    }
}

/// Two digests of equal length each at most the other are equal.
pub proof fn lemma_lex_le_antisymmetric(a: Seq<u8>, b: Seq<u8>)
    requires
        a.len() == b.len(),
        lex_le(a, b),
        lex_le(b, a),
    ensures
        a == b,
    decreases a.len(),
{
    if a.len() > 0 {
        lemma_lex_le_antisymmetric(a.skip(1), b.skip(1));
        assert forall|j: int| 0 <= j < a.len() implies a[j] == b[j] by {
            if j > 0 {
                assert(a[j] == a.skip(1)[j - 1]);
                assert(b[j] == b.skip(1)[j - 1]);
            }
        }
        assert(a =~= b);
    } else {
        assert(a =~= b);
    }
}

/// Compares two digests lexicographically.
pub fn bytes32_le(a: &[u8; 32], b: &[u8; 32]) -> (r: bool)
    ensures
        r == lex_le(a@, b@),
{
    let mut i: usize = 0;
    while i < 32
        invariant
            0 <= i <= 32,
            forall|j: int| 0 <= j < i ==> a@[j] == b@[j],
        decreases 32 - i,
    {
        if a[i] < b[i] {
            proof {
                lemma_lex_le_common_prefix(a@, b@, i as int);
            }
            return true;
        }
        if a[i] > b[i] {
            proof {
                lemma_lex_le_common_prefix(a@, b@, i as int);
            }
            return false;
        }
        i += 1;
    }
    proof {
        lemma_lex_le_common_prefix(a@, b@, 32);
    }
    true
}

/// Tests two digests, identities or roots for equality.
pub fn bytes32_eq(a: &[u8; 32], b: &[u8; 32]) -> (r: bool)
    ensures
        r == (a@ == b@),
{
    let mut i: usize = 0;
    while i < 32
        invariant
            0 <= i <= 32,
            forall|j: int| 0 <= j < i ==> a@[j] == b@[j],
        decreases 32 - i,
    {
        if a[i] != b[i] {
            return false;
        }
        i += 1;
    }
    proof {
        assert(a@ =~= b@);
    }
    true
}

} // verus!
