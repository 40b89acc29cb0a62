//! Merkle attestation batches: a per-borrower root over a batch of
//! off-chain attestations, and inclusion proofs checked against it.
//!
//! Interior nodes hash `0x01 || min(a, b) || max(a, b)` with SHA-256, the
//! pair ordered lexicographically, so a proof needs no left/right flags.

use vstd::prelude::*;
use soroban_sdk::Env;

verus! {

/// The host environment that performs the hashing.
#[verifier::external_type_specification]
#[verifier::external_body]
pub struct ExEnv(soroban_sdk::Env);

/// SHA-256 digest of `data`, as computed by the host.
pub uninterp spec fn sha256_digest(data: Seq<u8>) -> Seq<u8>;

/// `soroban_sdk::crypto::Crypto::sha256` on the bytes of `data`.
///
/// Claimed: the 32-byte result is the SHA-256 digest of exactly those
/// bytes (a deterministic function of them; the environment only hosts the
/// computation).
#[verifier::external_body]
fn sha256(env: &Env, data: &Vec<u8>) -> (h: [u8; 32])
    ensures
        h@ == sha256_digest(data@),
{
    env.crypto().sha256(&soroban_sdk::Bytes::from_slice(env, data.as_slice())).to_array()
}

/// A committed attestation batch.
#[derive(Clone, Copy, Debug, PartialEq, Eq)]
pub struct AttestationBatch {
    /// Merkle root over the batch.
    pub merkle_root: [u8; 32],
    /// Number of attestations in the batch.
    pub count: u32,
    /// Ledger timestamp of the commitment.
    pub committed_at: u64,
}

/// Lexicographic `a <= b` comparing from byte `i` on.
pub open spec fn bytes_le_from(a: Seq<u8>, b: Seq<u8>, i: int) -> bool
    decreases 32 - i,
{
    if i >= 32 || i < 0 {
        true
    } else if a[i] < b[i] {
        true
    } else if a[i] > b[i] {
        false
    } else {
        bytes_le_from(a, b, i + 1)
    }
}

/// Lexicographic `a <= b` over 32-byte values.
pub open spec fn bytes_le(a: Seq<u8>, b: Seq<u8>) -> bool {
    bytes_le_from(a, b, 0)
}

/// The interior node over children `a` and `b`.
pub open spec fn hash_pair_spec(a: Seq<u8>, b: Seq<u8>) -> Seq<u8> {
    if bytes_le(a, b) {
        sha256_digest(seq![1u8] + a + b)
    } else {
        sha256_digest(seq![1u8] + b + a)
    }
}

/// The root reached from `leaf` by folding in `proof` from the first sibling.
pub open spec fn root_spec(leaf: Seq<u8>, proof: Seq<[u8; 32]>) -> Seq<u8>
    decreases proof.len(),
{
    if proof.len() == 0 {
        leaf
    } else {
        hash_pair_spec(root_spec(leaf, proof.drop_last()), proof.last()@)
    }
}

/// Lexicographic comparison of two 32-byte values.
pub fn bytes32_le(a: &[u8; 32], b: &[u8; 32]) -> (r: bool)
    ensures
        r == bytes_le(a@, b@),
{
    let mut i: usize = 0;
    while i < 32
        invariant
            0 <= i <= 32,
            a@.len() == 32,
            b@.len() == 32,
            bytes_le(a@, b@) == bytes_le_from(a@, b@, i as int),
        decreases 32 - i,
    {
        let av = a[i];
        let bv = b[i];
        if av < bv {
            return true;
        }
        if av > bv {
            return false;
        }
        i = i + 1;
    }
    true
}

/// Hash a sorted pair: `sha256(0x01 || min || max)`.
pub fn hash_pair(env: &Env, a: &[u8; 32], b: &[u8; 32]) -> (h: [u8; 32])
    ensures
        h@ == hash_pair_spec(a@, b@),
{
    let le = bytes32_le(a, b);
    let (left, right) = if le { (a, b) } else { (b, a) };
    let mut buf: Vec<u8> = Vec::new();
    buf.push(1u8);
    let mut i: usize = 0;
    while i < 32
        invariant
            0 <= i <= 32,
            left@.len() == 32,
            buf@ == seq![1u8] + left@.take(i as int),
        decreases 32 - i,
    {
        buf.push(left[i]);
        i = i + 1;
        proof {
            assert(buf@ =~= seq![1u8] + left@.take(i as int));
        }
    }
    let mut j: usize = 0;
    while j < 32
        invariant
            0 <= j <= 32,
            left@.len() == 32,
            right@.len() == 32,
            buf@ == seq![1u8] + left@ + right@.take(j as int),
        decreases 32 - j,
    {
        buf.push(right[j]);
        j = j + 1;
        proof {
            assert(buf@ =~= seq![1u8] + left@ + right@.take(j as int));
        }
    }
    proof {
        assert(left@.take(32) =~= left@);
        assert(right@.take(32) =~= right@);
        assert(buf@ =~= seq![1u8] + left@ + right@);
    }
    sha256(env, &buf)
}

/// Fold an inclusion proof into a root, starting from `leaf`.
pub fn compute_root(env: &Env, leaf: [u8; 32], proof: &Vec<[u8; 32]>) -> (root: [u8; 32])
    ensures
        root@ == root_spec(leaf@, proof@),
{
    let mut current = leaf;
    let mut i: usize = 0;
    while i < proof.len()
        invariant
            0 <= i <= proof@.len(),
            current@ == root_spec(leaf@, proof@.take(i as int)),
        decreases proof@.len() - i,
    {
        let sibling = proof[i];
        current = hash_pair(env, &current, &sibling);
        i = i + 1;
        proof {
            assert(proof@.take(i as int).drop_last() =~= proof@.take(i as int - 1));
        }
    }
    proof {
        assert(proof@.take(proof@.len() as int) =~= proof@);
    }
    current
}

proof fn lemma_le_total(a: Seq<u8>, b: Seq<u8>, i: int)
    requires
        a.len() == 32,
        b.len() == 32,
        0 <= i <= 32,
    ensures
        bytes_le_from(a, b, i) || bytes_le_from(b, a, i),
        bytes_le_from(a, b, i) && bytes_le_from(b, a, i) ==> a.subrange(i, 32) == b.subrange(i, 32),
    decreases 32 - i,
{
    if i < 32 {
        lemma_le_total(a, b, i + 1);
        if a[i] == b[i] && bytes_le_from(a, b, i) && bytes_le_from(b, a, i) {
            assert(a.subrange(i, 32) =~= seq![a[i]] + a.subrange(i + 1, 32));
            assert(b.subrange(i, 32) =~= seq![b[i]] + b.subrange(i + 1, 32));
        }
    } else {
        assert(a.subrange(i, 32) =~= b.subrange(i, 32));
    }
}

/// An interior node does not depend on the order of its children, so a
/// proof may list each sibling without saying on which side it stands.
pub proof fn law_hash_pair_symmetric(a: Seq<u8>, b: Seq<u8>)
    requires
        a.len() == 32,
        b.len() == 32,
    ensures
        hash_pair_spec(a, b) == hash_pair_spec(b, a),
{
    lemma_le_total(a, b, 0);
    if bytes_le(a, b) && bytes_le(b, a) {
        assert(a =~= a.subrange(0, 32));
        assert(b =~= b.subrange(0, 32));
    }
}

/// A one-sibling proof reaches the same root from either leaf of a pair.
pub proof fn law_two_leaf_root_commutes(l0: [u8; 32], l1: [u8; 32])
    ensures
        root_spec(l0@, seq![l1]) == root_spec(l1@, seq![l0]),
{
    law_hash_pair_symmetric(l0@, l1@);
    assert(seq![l1].drop_last() =~= Seq::<[u8; 32]>::empty());
    assert(seq![l0].drop_last() =~= Seq::<[u8; 32]>::empty());
    assert(root_spec(l0@, Seq::<[u8; 32]>::empty()) == l0@);
    assert(root_spec(l1@, Seq::<[u8; 32]>::empty()) == l1@);
    assert(root_spec(l0@, seq![l1]) == hash_pair_spec(l0@, l1@));
    assert(root_spec(l1@, seq![l0]) == hash_pair_spec(l1@, l0@));
}

} // verus!
