//! A drillx proof-of-work solution as the pool handles it.

use vstd::prelude::*;
use vstd::bytes::{spec_u64_from_le_bytes, u64_from_le_bytes};
use crate::chain::{drillx_difficulty, drillx_hash, drillx_is_valid, drillx_solution_hash, drillx_valid, leading_zero_bits, lemma_leading_zero_bits_bound};

verus! {

/// A solution submitted by a miner: the equihash digest and the nonce it was found for.
#[derive(Clone, Copy, Debug)]
pub struct Solution {
    /// The equihash digest.
    pub d: [u8; 16],
    /// The nonce, little-endian.
    pub n: [u8; 8],
}

/// The nonce of a solution as a number.
pub open spec fn spec_nonce(n: [u8; 8]) -> u64 {
    spec_u64_from_le_bytes(n@)
}

/// The difficulty of a solution: leading zero bits of its drillx hash.
pub open spec fn spec_difficulty(s: Solution) -> nat {
    leading_zero_bits(drillx_hash(s.d@, s.n@))
}

impl Solution {
    /// Builds a solution from a digest and a nonce.
    pub fn new(digest: [u8; 16], nonce: [u8; 8]) -> (r: Solution)
        ensures
            r.d == digest,
            r.n == nonce,
    {
        Solution { d: digest, n: nonce }
    }

    /// The nonce as a number (little-endian).
    pub fn nonce(&self) -> (r: u64)
        ensures
            r == spec_nonce(self.n),
    {
        u64_from_le_bytes(self.n.as_slice())
    }

    /// Whether the digest is a valid equihash solution for `challenge` and the nonce.
    pub fn is_valid(&self, challenge: &[u8; 32]) -> (r: bool)
        ensures
            r == drillx_valid(challenge@, self.n@, self.d@),
    {
        drillx_is_valid(&self.d, &self.n, challenge)
    }

    /// The difficulty of the solution: the leading zero bits of its hash.
    pub fn difficulty(&self) -> (r: u32)
        ensures
            r == spec_difficulty(*self),
            r <= 256,
    {
        let h = drillx_solution_hash(&self.d, &self.n);
        proof {
            lemma_leading_zero_bits_bound(h@);
        }
        drillx_difficulty(h)
    }
}

} // verus!
