//! Monotonic time and cooldown-gated firing.
//!
//! The supervisor retries after failures only once a cooldown has passed,
//! and warnings from the hot path are rate limited the same way: a per-site
//! record of the last firing, compared against a monotonic millisecond
//! clock.

use vstd::prelude::*;

verus! {

#[verifier::external_type_specification]
#[verifier::external_body]
pub struct ExInstant(std::time::Instant);

/// A fixed origin for monotonic millisecond readings.
pub struct MonotonicClock {
    pub start: std::time::Instant,
}

/// Relies on std::time::Instant::now: the clock's origin is the moment it
/// was started.
#[verifier::external_body]
pub fn monotonic_clock_start() -> MonotonicClock {
    MonotonicClock { start: std::time::Instant::now() }
}

/// Relies on std::time::Instant::elapsed: whole milliseconds since the
/// clock was started. Monotonic: never decreases between calls, though no
/// contract can pin a reading of the machine's clock.
#[verifier::external_body]
pub fn now_monotonic_millis(clock: &MonotonicClock) -> u64 {
    clock.start.elapsed().as_millis() as u64
}

/// `now - earlier`, or zero when time appears to have gone backwards.
pub open spec fn spec_elapsed_since(earlier: u64, now: u64) -> u64 {
    if now >= earlier {
        (now - earlier) as u64
    } else {
        0
    }
}

/// One call site's cooldown gate: fires at most once per cooldown window.
pub struct RateLimiter {
    pub last_fired: u64,
    pub cooldown_ms: u64,
}

impl RateLimiter {
    /// A fresh gate acts as if it last fired at the clock's origin.
    pub fn new(cooldown_ms: u64) -> (r: Self)
        ensures
            r.last_fired == 0,
            r.cooldown_ms == cooldown_ms,
    {
        RateLimiter { last_fired: 0, cooldown_ms }
    }

    /// Fires exactly when a full cooldown has passed since the last firing,
    /// and then remembers the firing time.
    pub fn should_fire(&mut self, now_ms: u64) -> (fire: bool)
        ensures
            fire == (spec_elapsed_since(old(self).last_fired, now_ms) >= old(self).cooldown_ms),
            fire ==> final(self).last_fired == now_ms,
            !fire ==> final(self).last_fired == old(self).last_fired,
            final(self).cooldown_ms == old(self).cooldown_ms,
    {
        let elapsed: u64 = if now_ms >= self.last_fired {
            now_ms - self.last_fired
        } else {
            0
        };
        if elapsed >= self.cooldown_ms {
            self.last_fired = now_ms;
            true
        } else {
            false
        }
    }
}

} // verus!
