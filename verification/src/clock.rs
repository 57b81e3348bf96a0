use vstd::prelude::*;
use crate::time_of_day::TimeOfDay;

verus! {

/// Declares std::time::Instant, the monotonic clock's opaque reading, so
/// that it can stand in fields and signatures.
#[verifier::external_type_specification]
#[verifier::external_body]
pub struct ExInstant(std::time::Instant);

/// Relies on time::OffsetDateTime::now_local for the current local
/// date-time (None when the local UTC offset cannot be determined), and on
/// time::Time::hour, minute and second, which by that crate's ranged field
/// types always lie within one day.
#[verifier::external_body]
fn local_hms() -> (r: Option<(u8, u8, u8)>)
    ensures
        r matches Some(hms) ==> hms.0 < 24 && hms.1 < 60 && hms.2 < 60,
{
    match time::OffsetDateTime::now_local() {
        Ok(dt) => {
            let t = dt.time();
            Some((t.hour(), t.minute(), t.second()))
        },
        Err(_) => None,
    }
}

/// Read the local wall clock as a time of day, when the platform can
/// determine the local offset.
pub fn read_wall_clock() -> (r: Option<TimeOfDay>)
    ensures
        r matches Some(t) ==> t.wf(),
{
    match local_hms() {
        Some((hour, minute, second)) => Some(TimeOfDay::from_hms(hour, minute, second)),
        None => None,
    }
}

/// Relies on std::time::Instant::now: an opaque reading of the monotonic
/// clock, unaffected by wall-clock adjustments.
#[verifier::external_body]
pub fn instant_now() -> (r: std::time::Instant) {
    std::time::Instant::now()
}

/// Relies on std::time::Instant::elapsed: the time since `earlier`,
/// saturating at zero.
#[verifier::external_body]
fn elapsed_of(earlier: &std::time::Instant) -> (r: std::time::Duration) {
    earlier.elapsed()
}

/// Relies on std::time::Duration::as_millis: the duration in whole
/// milliseconds (truncated into a u64 here).
#[verifier::external_body]
fn duration_millis(d: std::time::Duration) -> (r: u64) {
    d.as_millis() as u64
}

/// Milliseconds of monotonic time elapsed since `earlier`.
pub fn millis_since(earlier: &std::time::Instant) -> u64 {
    duration_millis(elapsed_of(earlier))
}

} // verus!
