//! Clock readings and their wall-clock display.
//!
//! Message timestamps are epoch milliseconds from the system clock; their
//! display strings come from the local time zone. Both depend on the
//! machine and the moment, so nothing is promised of the values.

use chrono::TimeZone;
use vstd::prelude::*;

verus! {

/// Relies on `std::time::SystemTime::now`: milliseconds since the Unix
/// epoch as the system clock reports them, and zero where the clock sits
/// before the epoch. Nothing is promised of the value.
#[verifier::external_body]
pub fn now_ms() -> u64 {
    std::time::SystemTime::now().duration_since(std::time::UNIX_EPOCH).unwrap_or_default()
        .as_millis() as u64
}

/// Relies on `chrono::TimeZone::timestamp_millis_opt` on `chrono::Local`:
/// the instant rendered `"%H:%M:%S"` in the machine's local time zone, or
/// `None` where the zone gives the instant no single representation. The
/// value depends on the environment.
#[verifier::external_body]
fn local_time_display(ms: u64) -> Option<String> {
    chrono::Local.timestamp_millis_opt(ms as i64).single().map(
        |t| t.format("%H:%M:%S").to_string(),
    )
}

/// Relies on `chrono::Local::now`: the present moment rendered `"%H:%M:%S"`
/// in the machine's local time zone.
#[verifier::external_body]
fn now_time_display() -> String {
    chrono::Local::now().format("%H:%M:%S").to_string()
}

/// Wall-clock display string for an epoch-millisecond instant, falling back
/// to the present moment where the local zone gives the instant no single
/// representation.
pub fn format_timestamp(ms: u64) -> String {
    match local_time_display(ms) {
        Some(t) => t,
        None => now_time_display(),
    }
}

} // verus!
