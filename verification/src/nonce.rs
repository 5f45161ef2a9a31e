use vstd::prelude::*;

verus! {

/// Number of nonces handed to one client for one round of mining
/// (the most hashes a single client can try in a minute).
pub const NONCES_PER_CLIENT: u64 = 2_000_000;

/// A half-open range `start..end` of nonces assigned to a client.
#[derive(Clone, Copy, Debug, PartialEq, Eq)]
pub struct NonceRange {
    pub start: u64,
    pub end: u64,
}

impl NonceRange {
    /// Whether `nonce` lies in `start..end`.
    pub open spec fn spec_contains(self, nonce: u64) -> bool {
        self.start <= nonce && nonce < self.end
    }

    /// Whether `nonce` lies in this range.
    pub fn contains(&self, nonce: u64) -> (r: bool)
        ensures
            r == self.spec_contains(nonce),
            r <==> (self.start <= nonce && nonce < self.end),
    {
        self.start <= nonce && nonce < self.end
    }
}

/// A range holds exactly the nonces from its start up to, not including, its
/// end: every nonce of an assigned range counts as in range, and no other.
pub proof fn lemma_range_membership(r: NonceRange, nonce: u64)
    ensures
        r.start <= nonce < r.end ==> r.spec_contains(nonce),
        nonce < r.start ==> !r.spec_contains(nonce),
        r.end <= nonce ==> !r.spec_contains(nonce),
{
}

/// Every nonce of a range the allocator hands out is in that range: the
/// `NONCES_PER_CLIENT` nonces from the allocator's counter on.
pub proof fn lemma_allocated_range_covers(next: u64, k: u64)
    requires
        next + NONCES_PER_CLIENT <= u64::MAX,
        k < NONCES_PER_CLIENT,
    ensures
        (NonceRange { start: next, end: (next + NONCES_PER_CLIENT) as u64 }).spec_contains((next + k) as u64),
{
}

/// Hands out consecutive, non-overlapping nonce ranges; reset at every new epoch.
pub struct NonceAllocator {
    pub next: u64,
}

impl NonceAllocator {
    /// A fresh allocator starting at nonce 0.
    pub fn new() -> (r: Self)
        ensures
            r.next == 0,
    {
        NonceAllocator { next: 0 }
    }

    /// Whether another range can be handed out without overflowing the counter.
    pub open spec fn can_allocate(&self) -> bool {
        self.next + NONCES_PER_CLIENT <= u64::MAX
    }

    /// Hands out the next `NONCES_PER_CLIENT` nonces.
    pub fn allocate(&mut self) -> (r: NonceRange)
        requires
            old(self).can_allocate(),
        ensures
            r.start == old(self).next,
            r.end == old(self).next + NONCES_PER_CLIENT,
            final(self).next == r.end,
    {
        let start = self.next;
        self.next = self.next + NONCES_PER_CLIENT;
        NonceRange { start, end: self.next }
    }

    /// Starts over at nonce 0 (a new challenge makes old nonces reusable).
    pub fn reset(&mut self)
        ensures
            final(self).next == 0,
    {
        self.next = 0;
    }
}

} // verus!
