//! The service clock: one reading of a monotonic clock, taken once at boot,
//! from which every handler derives the uptime.
use vstd::prelude::*;

verus! {

/// Milliseconds in one second.
pub const MILLIS_PER_SECOND: u64 = 1000;

/// The moment the service started, in milliseconds of a monotonic clock.
/// It is set once and only ever read afterwards.
#[derive(Clone, Copy, Debug, PartialEq, Eq, Structural)]
pub struct ServiceClock {
    pub started_ms: u64,
}

/// Whole seconds elapsed from `started_ms` to `now_ms`; a reading taken
/// before the start counts as no time at all.
pub open spec fn uptime_at(started_ms: u64, now_ms: u64) -> nat {
    if now_ms <= started_ms {
        0
    } else {
        ((now_ms - started_ms) / MILLIS_PER_SECOND as int) as nat
    }
}

impl ServiceClock {
    /// Records the start of the service at `now_ms`.
    pub fn start(now_ms: u64) -> (r: ServiceClock)
        ensures
            r.started_ms == now_ms,
    {
        ServiceClock { started_ms: now_ms }
    }

    /// Whole seconds since the start, for a reading `now_ms` of the same clock.
    pub fn uptime_secs(&self, now_ms: u64) -> (r: u64)
        ensures
            r == uptime_at(self.started_ms, now_ms),
    {
        if now_ms <= self.started_ms {
            0
        } else {
            (now_ms - self.started_ms) / MILLIS_PER_SECOND
        }
    }
}

/// Uptime never decreases while the clock moves forward, and it is zero at
/// the moment of the start.
pub proof fn lemma_uptime_monotonic(clock: ServiceClock, earlier_ms: u64, later_ms: u64)
    requires
        earlier_ms <= later_ms,
    ensures
        uptime_at(clock.started_ms, earlier_ms) <= uptime_at(clock.started_ms, later_ms),
        uptime_at(clock.started_ms, clock.started_ms) == 0,
{
    if earlier_ms > clock.started_ms {
        vstd::arithmetic::div_mod::lemma_div_is_ordered(
            earlier_ms - clock.started_ms,
            later_ms - clock.started_ms,
            MILLIS_PER_SECOND as int,
        );
    }
}

} // verus!
