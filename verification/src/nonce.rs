//! Sequence-number (nonce) discipline for one signing identity.
//!
//! The network orders and deduplicates a signer's transactions by a
//! monotonically increasing sequence number. One [`NonceSequencer`] owns
//! that counter, together with the reference block hash transactions are
//! anchored to. Concurrent event loops share the one sequencer under
//! mutual exclusion and allocate through it; the counter is never copied
//! and never moves backwards, so numbers are never reused and never
//! skipped relative to allocation order.

use vstd::prelude::*;

verus! {

/// Seconds after which the reference block hash and the chain-side nonce
/// are considered stale and must be fetched again before allocating.
pub const NONCE_STALE_AFTER_SECS: u64 = 60;

/// The sequencing cursor for one signing identity: the last sequence
/// number issued, and the reference block hash allocations hand out.
pub struct NonceSequencer {
    /// False until the first chain-fetched value is installed.
    pub initialized: bool,
    /// The last sequence number issued (or installed from the chain).
    pub sequence: u64,
    /// A recent block hash bounding the validity window of transactions
    /// built from this cursor.
    pub reference_hash: Vec<u8>,
    /// Chain-clock time of the last refresh.
    pub last_refreshed: u64,
}

/// One allocation as [`NonceSequencer::allocate`] promises it: the call
/// returns exactly one more than the counter it started from, and leaves
/// the counter at the returned value.
pub open spec fn allocate_step(pre: NonceSequencer, post: NonceSequencer, r: u64) -> bool {
    &&& pre.initialized
    &&& pre.sequence < u64::MAX
    &&& r == pre.sequence + 1
    &&& post.sequence == r
    &&& post.initialized
}

impl NonceSequencer {
    /// A cursor that has not yet seen the chain; it must be refreshed
    /// before the first allocation.
    pub fn new() -> (r: NonceSequencer)
        ensures
            !r.initialized,
            r.sequence == 0,
            r.reference_hash@.len() == 0,
            r.last_refreshed == 0,
    {
        NonceSequencer { initialized: false, sequence: 0, reference_hash: Vec::new(), last_refreshed: 0 }
    }

    /// Whether a chain fetch must precede the next allocation: before
    /// first use, after exhaustion, or once the last refresh is stale.
    pub open spec fn spec_needs_refresh(&self, now: u64) -> bool {
        ||| !self.initialized
        ||| self.sequence == u64::MAX
        ||| now - self.last_refreshed > NONCE_STALE_AFTER_SECS
    }

    /// Executable form of [`NonceSequencer::spec_needs_refresh`].
    pub fn needs_refresh(&self, now: u64) -> (r: bool)
        ensures
            r == self.spec_needs_refresh(now),
    {
        !self.initialized || self.sequence == u64::MAX || (self.last_refreshed < now
            && now - self.last_refreshed > NONCE_STALE_AFTER_SECS)
    }

    /// Install a freshly fetched access-key nonce and reference block
    /// hash. The counter never moves backwards: a lagging chain view can
    /// not make an already-issued number reappear.
    pub fn refresh(&mut self, chain_nonce: u64, reference_hash: Vec<u8>, now: u64)
        ensures
            final(self).initialized,
            final(self).sequence == if old(self).initialized && old(self).sequence
                > chain_nonce { old(self).sequence } else { chain_nonce },
            old(self).initialized ==> final(self).sequence >= old(self).sequence,
            final(self).reference_hash@ == reference_hash@,
            final(self).last_refreshed == now,
    {
        if !self.initialized || chain_nonce > self.sequence {
            self.sequence = chain_nonce;
        }
        self.initialized = true;
        self.reference_hash = reference_hash;
        self.last_refreshed = now;
    }

    /// Allocate the next sequence number, together with the reference
    /// block hash to anchor the transaction to. The returned number has
    /// never been returned before and is exactly one greater than the
    /// last one issued.
    pub fn allocate(&mut self) -> (r: (u64, Vec<u8>))
        requires
            old(self).initialized,
            old(self).sequence < u64::MAX,
        ensures
            allocate_step(*old(self), *final(self), r.0),
            r.0 == old(self).sequence + 1,
            final(self).sequence == r.0,
            final(self).initialized == old(self).initialized,
            final(self).reference_hash@ == old(self).reference_hash@,
            final(self).last_refreshed == old(self).last_refreshed,
            r.1@ == old(self).reference_hash@,
    {
        self.sequence = self.sequence + 1;
        let hash = clone_hash(&self.reference_hash);
        (self.sequence, hash)
    }
}

/// A copy of the reference block hash, byte for byte.
fn clone_hash(h: &Vec<u8>) -> (r: Vec<u8>)
    ensures
        r@ == h@,
{
    let mut out: Vec<u8> = Vec::new();
    let mut i: usize = 0;
    while i < h.len()
        invariant
            i <= h@.len(),
            out@ == h@.subrange(0, i as int),
        decreases h@.len() - i,
    {
        out.push(h[i]);
        i = i + 1;
    }
    proof {
        assert(out@ =~= h@);
    }
    out
}

/// Counter positions along a chain of allocations, derived from
/// [`allocate_step`] alone: after `i` allocations the counter stands `i`
/// above where it started.
pub proof fn lemma_allocation_counter(states: Seq<NonceSequencer>, rs: Seq<u64>, i: int)
    requires
        states.len() == rs.len() + 1,
        forall|t: int| 0 <= t < rs.len() ==> allocate_step(
            #[trigger] states[t],
            states[t + 1],
            rs[t],
        ),
        0 <= i <= rs.len(),
    ensures
        states[i].sequence == states[0].sequence + i,
    decreases i,
{
    if i > 0 {
        lemma_allocation_counter(states, rs, i - 1);
        assert(allocate_step(states[i - 1], states[i], rs[i - 1]));
    }
}

/// Any chain of allocations against one sequencer — concurrent callers
/// included, since mutual exclusion makes their allocations a sequence of
/// whole [`allocate_step`]s — returns pairwise distinct sequence numbers
/// that strictly increase, with no gaps, in allocation order.
pub proof fn lemma_allocation_sequence(states: Seq<NonceSequencer>, rs: Seq<u64>)
    requires
        states.len() == rs.len() + 1,
        forall|t: int| 0 <= t < rs.len() ==> allocate_step(
            #[trigger] states[t],
            states[t + 1],
            rs[t],
        ),
    ensures
        forall|i: int| 0 <= i < rs.len() ==> #[trigger] rs[i] == states[0].sequence + i + 1,
        forall|i: int, j: int| 0 <= i < j < rs.len() ==> rs[i] < rs[j],
        forall|i: int, j: int|
            0 <= i < rs.len() && 0 <= j < rs.len() && i != j ==> rs[i] != rs[j],
{
    assert forall|i: int| 0 <= i < rs.len() implies #[trigger] rs[i] == states[0].sequence + i
        + 1 by {
        lemma_allocation_counter(states, rs, i);
        assert(allocate_step(states[i], states[i + 1], rs[i]));
    }
}

} // verus!
