//! Token-bucket admission gate bounding visit throughput: capacity is the
//! configured requests per second clamped to at least one, one refill event
//! per second restores full capacity, and the bucket starts half full to
//! damp the startup burst.

use vstd::prelude::*;

verus! {

/// One second, in nanoseconds.
pub const NANOS_PER_SECOND: u64 = 1_000_000_000;

/// The bucket capacity obtained from a requested rate: clamped to >= 1, so a
/// rate of zero builds the same limiter as a rate of one.
pub open spec fn clamped_capacity(requests_per_second: u64) -> u64 {
    if requests_per_second < 1 {
        1
    } else {
        requests_per_second
    }
}

/// The observable state a limiter is constructed with: capacity, available
/// tokens (half the capacity), and the moment of the last refill.
pub open spec fn initial_state(requests_per_second: u64, now_ns: u64) -> (u64, u64, u64) {
    (
        clamped_capacity(requests_per_second),
        clamped_capacity(requests_per_second) / 2,
        now_ns,
    )
}

/// What one admission attempt at the given moment does to a limiter state,
/// and what it returns: Ok when a token was taken, or the wait in
/// nanoseconds until the next refill.
pub open spec fn consume_step(state: (u64, u64, u64), now_ns: u64) -> ((u64, u64, u64), Result<
    (),
    u64,
>) {
    let (cap, avail, last) = state;
    if now_ns - last >= NANOS_PER_SECOND {
        (((cap, (cap - 1) as u64, now_ns)), Ok(()))
    } else if avail >= 1 {
        (((cap, (avail - 1) as u64, last)), Ok(()))
    } else {
        (((cap, avail, last)), Err((last + NANOS_PER_SECOND - now_ns) as u64))
    }
}

/// Token-bucket rate limiter. Time is handed in by the caller as a
/// monotonic nanosecond reading, so the limiter itself is a pure state
/// machine.
pub struct RateLimiter {
    capacity: u64,
    available: u64,
    last_refill_ns: u64,
}

impl View for RateLimiter {
    type V = (u64, u64, u64);

    closed spec fn view(&self) -> (u64, u64, u64) {
        (self.capacity, self.available, self.last_refill_ns)
    }
}

impl RateLimiter {
    /// Well-formedness: at least one token of capacity, and never more
    /// available than the capacity.
    pub open spec fn wf(&self) -> bool {
        &&& self@.0 >= 1
        &&& self@.1 <= self@.0
    }

    /// Returns a new limiter: capacity clamped to at least one token per
    /// second, starting half full.
    pub fn new(requests_per_second: u64, now_ns: u64) -> (r: RateLimiter)
        ensures
            r@ == initial_state(requests_per_second, now_ns),
            r.wf(),
    {
        let capacity = if requests_per_second < 1 {
            1
        } else {
            requests_per_second
        };
        RateLimiter { capacity, available: capacity / 2, last_refill_ns: now_ns }
    }

    /// Try to take one token at the given moment. A full second since the
    /// last refill restores full capacity first; with no token available the
    /// call fails with the wait until the next refill.
    pub fn try_consume(&mut self, now_ns: u64) -> (r: Result<(), u64>)
        requires
            old(self).wf(),
            old(self)@.2 <= now_ns,
            now_ns <= u64::MAX - NANOS_PER_SECOND,
        ensures
            final(self).wf(),
            final(self)@.2 <= now_ns,
            (final(self)@, r) == consume_step(old(self)@, now_ns),
    {
        if now_ns - self.last_refill_ns >= NANOS_PER_SECOND {
            self.available = self.capacity;
            self.last_refill_ns = now_ns;
        }
        if self.available >= 1 {
            self.available = self.available - 1;
            Ok(())
        } else {
            Err(self.last_refill_ns + NANOS_PER_SECOND - now_ns)
        }
    }
}

/// A limiter constructed with zero requests per second is indistinguishable
/// from one constructed with one: the initial states are equal, and the
/// limiter's behavior is a function of its state alone.
pub proof fn lemma_zero_rps_behaves_as_one(now_ns: u64)
    ensures
        initial_state(0, now_ns) == initial_state(1, now_ns),
{
}

/// The extra pacing delay the orchestrator inserts per dispatched task,
/// spreading load evenly instead of bursting up to capacity every refill.
pub fn pacing_delay_ms(requests_per_second: u64) -> (r: u64)
    requires
        requests_per_second >= 1,
    ensures
        r == 1000u64 / requests_per_second,
{
    1000 / requests_per_second
}

} // verus!
