//! Liveness and readiness payloads: a status word, the uptime and the time
//! of the answer in RFC 3339 form.
use crate::clock::{lemma_uptime_monotonic, uptime_at, ServiceClock};
use vstd::prelude::*;

verus! {

/// The text chrono writes for the UTC instant `secs` seconds and `nanos`
/// nanoseconds after the Unix epoch.
pub uninterp spec fn rfc3339_text(secs: int, nanos: int) -> Seq<char>;

/// Whether chrono has a date for the instant: within the next thirty
/// centuries of the epoch, with the nanoseconds below one second.
pub open spec fn in_formattable_range(secs: i64, nanos: u32) -> bool {
    0 <= secs < 100_000_000_000 && nanos < 1_000_000_000
}

/// Relies on chrono's `DateTime::<Utc>::from_timestamp`, which makes a value
/// for every instant in the range above, and on `DateTime::to_rfc3339`,
/// which writes it.
#[verifier::external_body]
fn rfc3339_of(secs: i64, nanos: u32) -> (r: Option<String>)
    ensures
        r matches Some(t) ==> t@ == rfc3339_text(secs as int, nanos as int),
        in_formattable_range(secs, nanos) ==> r is Some,
{
    match chrono::DateTime::from_timestamp(secs, nanos) {
        Some(d) => Some(d.to_rfc3339()),
        None => None,
    }
}

/// A reading of the wall clock, as Unix time.
#[derive(Clone, Copy, Debug, PartialEq, Eq, Structural)]
pub struct WallTime {
    pub secs: i64,
    pub nanos: u32,
}

/// What a timestamp field holds for a wall-clock reading: its RFC 3339
/// text, or an empty text when chrono has no date for it.
pub open spec fn timestamp_fits(t: Seq<char>, wall: WallTime) -> bool {
    if in_formattable_range(wall.secs, wall.nanos) {
        t == rfc3339_text(wall.secs as int, wall.nanos as int)
    } else {
        t == rfc3339_text(wall.secs as int, wall.nanos as int) || t.len() == 0
    }
}

/// The RFC 3339 text of a wall-clock reading; empty where none exists.
pub fn timestamp_text(wall: WallTime) -> (r: String)
    ensures
        timestamp_fits(r@, wall),
{
    match rfc3339_of(wall.secs, wall.nanos) {
        Some(t) => t,
        None => String::new(),
    }
}

/// Which probe asks.
#[derive(Clone, Copy, Debug, PartialEq, Eq, Structural)]
pub enum Probe {
    Liveness,
    Readiness,
}

/// The status word of each probe's answer.
pub open spec fn probe_status(probe: Probe) -> Seq<char> {
    match probe {
        Probe::Liveness => "ok"@,
        Probe::Readiness => "ready"@,
    }
}

/// A probe's answer.
#[derive(Debug)]
pub struct HealthStatus {
    pub status: String,
    pub uptime_seconds: u64,
    pub timestamp: String,
}

/// Whether `r` is the answer to `probe` for a clock read at `now_ms` and a
/// wall clock read at `wall`.
pub open spec fn is_health_status(
    r: HealthStatus,
    probe: Probe,
    clock: ServiceClock,
    now_ms: u64,
    wall: WallTime,
) -> bool {
    &&& r.status@ == probe_status(probe)
    &&& r.uptime_seconds == uptime_at(clock.started_ms, now_ms)
    &&& timestamp_fits(r.timestamp@, wall)
}

/// Answers a probe. The readiness probe is always ready: the service has no
/// warm-up and no dependency to wait for.
pub fn health_status(probe: Probe, clock: &ServiceClock, now_ms: u64, wall: WallTime) -> (r:
    HealthStatus)
    ensures
        is_health_status(r, probe, *clock, now_ms, wall),
{
    let status = match probe {
        Probe::Liveness => String::from_str("ok"),
        Probe::Readiness => String::from_str("ready"),
    };
    HealthStatus {
        status,
        uptime_seconds: clock.uptime_secs(now_ms),
        timestamp: timestamp_text(wall),
    }
}

/// Answering a probe changes nothing: two answers for one clock reading
/// agree in everything but the timestamp, and two answers for one clock
/// reading and one wall-clock reading of a formattable instant are the same.
pub proof fn lemma_probe_answers_agree(
    probe: Probe,
    clock: ServiceClock,
    now_ms: u64,
    wall_a: WallTime,
    wall_b: WallTime,
    a: HealthStatus,
    b: HealthStatus,
)
    requires
        is_health_status(a, probe, clock, now_ms, wall_a),
        is_health_status(b, probe, clock, now_ms, wall_b),
    ensures
        a.status@ == b.status@,
        a.uptime_seconds == b.uptime_seconds,
        wall_a == wall_b && in_formattable_range(wall_a.secs, wall_a.nanos) ==> a.timestamp@
            == b.timestamp@,
{
}

/// Across successive answers of either probe, the reported uptime never
/// decreases, and an answer at the moment of the start reports zero.
pub proof fn lemma_probe_uptime_monotonic(
    clock: ServiceClock,
    earlier_ms: u64,
    later_ms: u64,
    first: HealthStatus,
    first_probe: Probe,
    first_wall: WallTime,
    second: HealthStatus,
    second_probe: Probe,
    second_wall: WallTime,
)
    requires
        earlier_ms <= later_ms,
        is_health_status(first, first_probe, clock, earlier_ms, first_wall),
        is_health_status(second, second_probe, clock, later_ms, second_wall),
    ensures
        first.uptime_seconds <= second.uptime_seconds,
        earlier_ms == clock.started_ms ==> first.uptime_seconds == 0,
{
    lemma_uptime_monotonic(clock, earlier_ms, later_ms);
}

} // verus!
