//! Request nonces.

use vstd::prelude::*;

verus! {

/// The nonce that follows `last` when the wall clock reads `now_ms`: the
/// clock's reading, unless that would not move past `last`.
pub open spec fn nonce_after(last: int, now_ms: int) -> int {
    if now_ms > last {
        now_ms
    } else {
        last + 1
    }
}

/// The nonces handed out, in order, by a clock that last issued `last` and
/// is then asked once for each wall-clock reading in `readings`.
pub open spec fn nonces_issued(last: int, readings: Seq<u64>) -> Seq<int>
    decreases readings.len(),
{
    if readings.len() == 0 {
        Seq::empty()
    } else {
        seq![nonce_after(last, readings[0] as int)] + nonces_issued(
            nonce_after(last, readings[0] as int),
            readings.drop_first(),
        )
    }
}

/// Hands out request nonces for one signing identity. Every nonce is larger
/// than all nonces handed out before it, whatever the wall clock does.
///
/// The clock is a plain value: a program that signs from several threads
/// keeps it behind a lock, so that calls of [`NonceClock::next`] happen one
/// after another.
#[derive(Debug)]
pub struct NonceClock {
    last: u64,
}

impl NonceClock {
    /// The nonce most recently issued, or the floor the clock was set to.
    pub closed spec fn last_issued(&self) -> u64 {
        self.last
    }

    /// A clock that has issued nothing yet.
    pub fn new() -> (clock: NonceClock)
        ensures
            clock.last_issued() == 0,
    {
        NonceClock { last: 0 }
    }

    /// The nonce most recently issued, or the floor the clock was set to.
    pub fn last(&self) -> (last: u64)
        ensures
            last == self.last_issued(),
    {
        self.last
    }

    /// Whether the clock has reached the largest nonce and can issue no more.
    pub fn is_exhausted(&self) -> (exhausted: bool)
        ensures
            exhausted == (self.last_issued() == u64::MAX),
    {
        self.last == u64::MAX
    }

    /// Issues the next nonce, given the wall clock's reading in milliseconds.
    pub fn next(&mut self, now_ms: u64) -> (nonce: u64)
        requires
            old(self).last_issued() < u64::MAX,
        ensures
            nonce == nonce_after(old(self).last_issued() as int, now_ms as int),
            nonce > old(self).last_issued(),
            final(self).last_issued() == nonce,
    {
        let nonce: u64 = if now_ms > self.last {
            now_ms
        } else {
            self.last + 1
        };
        self.last = nonce;
        nonce
    }

    /// Forces the clock to `floor`, so that the next nonce is larger than
    /// `floor`. Meant for tests: moving a live clock backwards allows a
    /// nonce to be issued twice.
    pub fn reset(&mut self, floor: u64)
        ensures
            final(self).last_issued() == floor,
    {
        self.last = floor;
    }
}

/// Every nonce lies above the value the clock started from.
pub proof fn lemma_nonces_exceed_start(last: int, readings: Seq<u64>, i: int)
    requires
        0 <= i < readings.len(),
    ensures
        nonces_issued(last, readings).len() == readings.len(),
        nonces_issued(last, readings)[i] > last,
        nonces_issued(last, readings)[i] >= readings[i],
    decreases readings.len(),
{
    lemma_nonces_length(last, readings);
    if i > 0 {
        let first = nonce_after(last, readings[0] as int);
        lemma_nonces_length(first, readings.drop_first());
        lemma_nonces_exceed_start(first, readings.drop_first(), i - 1);
    }
}

/// One nonce is issued per request.
pub proof fn lemma_nonces_length(last: int, readings: Seq<u64>)
    ensures
        nonces_issued(last, readings).len() == readings.len(),
    decreases readings.len(),
{
    if readings.len() > 0 {
        lemma_nonces_length(nonce_after(last, readings[0] as int), readings.drop_first());
    }
}

/// Nonces are strictly increasing in the order in which they were issued,
/// and so pairwise distinct: of any two requests served by one clock, the
/// later one gets the larger nonce, whatever the wall clock read at either.
pub proof fn lemma_nonces_strictly_increase(last: int, readings: Seq<u64>, i: int, j: int)
    requires
        0 <= i < j < readings.len(),
    ensures
        nonces_issued(last, readings).len() == readings.len(),
        nonces_issued(last, readings)[i] < nonces_issued(last, readings)[j],
    decreases readings.len(),
{
    lemma_nonces_length(last, readings);
    let first = nonce_after(last, readings[0] as int);
    let rest = readings.drop_first();
    lemma_nonces_length(first, rest);
    if i == 0 {
        lemma_nonces_exceed_start(first, rest, j - 1);
    } else {
        lemma_nonces_strictly_increase(first, rest, i - 1, j - 1);
    }
}

} // verus!
