//! VRF commitments binding risk-score updates to a pre-committed hash.

use vstd::prelude::*;

verus! {

/// Length of the VRF commitment hash in bytes.
pub const VRF_COMMITMENT_HASH_LEN: u32 = 32;

/// VRF commitment stored per borrower.
#[derive(Clone, Copy, Debug, PartialEq, Eq)]
pub struct VrfCommitment {
    /// Hash of the VRF output.
    pub commitment_hash: [u8; 32],
    /// Ledger timestamp when the commitment was made.
    pub committed_at: u64,
}

/// Sum of the bytes of `s`.
pub open spec fn byte_sum(s: Seq<u8>) -> int
    decreases s.len(),
{
    if s.len() == 0 { 0 } else { byte_sum(s.drop_last()) + s.last() as int }
}

/// The score bound to a commitment hash: the byte sum modulo 101.
pub open spec fn score_of_hash(h: Seq<u8>) -> int {
    byte_sum(h) % 101
}

proof fn lemma_byte_sum_bound(s: Seq<u8>)
    ensures
        0 <= byte_sum(s) <= 255 * s.len(),
    decreases s.len(),
{
    if s.len() > 0 {
        lemma_byte_sum_bound(s.drop_last());
    }
}

/// Derive a risk score in `0..=100` from a commitment hash: the sum of its
/// bytes modulo 101.
pub fn derive_score_from_hash(hash: &[u8; 32]) -> (score: u32)
    ensures
        score == score_of_hash(hash@),
        score <= 100,
{
    let mut sum: u32 = 0;
    let mut i: usize = 0;
    while i < 32
        invariant
            0 <= i <= 32,
            hash@.len() == 32,
            sum == byte_sum(hash@.take(i as int)),
            sum <= 255 * i,
        decreases 32 - i,
    {
        proof {
            assert(hash@.take(i as int + 1).drop_last() =~= hash@.take(i as int));
        }
        sum = sum + hash[i] as u32;
        i = i + 1;
    }
    proof {
        assert(hash@.take(32) =~= hash@);
    }
    sum % 101
}

/// Every derived score lies in `0..=100`.
pub proof fn law_score_in_range(h: Seq<u8>)
    ensures
        0 <= score_of_hash(h) <= 100,
{
    lemma_byte_sum_bound(h);
}

} // verus!
