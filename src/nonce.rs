//! Nonces for authenticated actions, taken from a millisecond clock.
use vstd::prelude::*;

verus! {

/// The nonce issued at clock reading `now_ms` after `last`: the reading
/// itself when the clock has moved past `last`, else `last + 1` (which
/// saturates at the largest value).
pub open spec fn next_nonce(last: u64, now_ms: u64) -> u64 {
    if now_ms > last {
        now_ms
    } else if last < u64::MAX {
        (last + 1) as u64
    } else {
        last
    }
}

/// Issues nonces that never repeat and never go backwards. The owner of
/// the provider feeds it readings of the wall clock in milliseconds.
#[derive(Debug)]
pub struct NonceProvider {
    last: u64,
}

impl NonceProvider {
    /// The last nonce issued, or 0 before the first.
    pub closed spec fn last(&self) -> u64 {
        self.last
    }

    pub fn new() -> (r: NonceProvider)
        ensures
            r.last() == 0,
    {
        NonceProvider { last: 0 }
    }

    /// The last nonce issued, or 0 before the first.
    pub fn last_issued(&self) -> (r: u64)
        ensures
            r == self.last(),
    {
        self.last
    }

    /// Issues the next nonce given the current clock reading.
    pub fn next(&mut self, now_ms: u64) -> (r: u64)
        ensures
            r == next_nonce(old(self).last(), now_ms),
            final(self).last() == r,
    {
        let r = if now_ms > self.last {
            now_ms
        } else if self.last < u64::MAX {
            self.last + 1
        } else {
            self.last
        };
        self.last = r;
        r
    }
}

/// Two nonces issued one after the other never go backwards, and the
/// second is strictly larger unless the first has reached the largest
/// value; in particular two nonces issued within the same millisecond
/// differ.
pub proof fn lemma_nonces_increase(last: u64, now1: u64, now2: u64)
    ensures
        next_nonce(last, now1) >= last,
        last < u64::MAX ==> next_nonce(last, now1) > last,
        next_nonce(next_nonce(last, now1), now2) >= next_nonce(last, now1),
        next_nonce(last, now1) < u64::MAX ==> next_nonce(next_nonce(last, now1), now2)
            > next_nonce(last, now1),
{
}

} // verus!
