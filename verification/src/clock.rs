//! Millisecond timestamps for log entries and last-kick tracking.

use vstd::prelude::*;

verus! {

/// Relies on `std::time::SystemTime::now` together with
/// `SystemTime::duration_since(UNIX_EPOCH)`: the wall clock, read once and
/// reported as seconds and nanoseconds since the Unix epoch. A clock that
/// reads before the epoch is reported as zero. Nothing can be promised of
/// the value itself; std documents that the nanosecond part of a duration is
/// always below one billion.
#[verifier::external_body]
fn clock_since_epoch() -> (r: (u64, u32))
    ensures
        r.1 < 1_000_000_000,
{
    let d = std::time::SystemTime::now()
        .duration_since(std::time::UNIX_EPOCH)
        .unwrap_or(std::time::Duration::from_secs(0));
    (d.as_secs(), d.subsec_nanos())
}

/// Milliseconds denoted by a duration of `secs` seconds plus `subsec_nanos`
/// nanoseconds, truncated to 64 bits exactly as a cast would truncate it.
pub fn system_time_to_ms(secs: u64, subsec_nanos: u32) -> (ms: u64)
    ensures
        ms == ((secs * 1000 + subsec_nanos / 1_000_000) % 0x1_0000_0000_0000_0000),
{
    let total: u128 = secs as u128 * 1000 + (subsec_nanos / 1_000_000) as u128;
    (total % 0x1_0000_0000_0000_0000u128) as u64
}

/// The current wall-clock time in milliseconds since the Unix epoch. The
/// result depends on the clock, so nothing is promised of it.
pub fn now_ms() -> u64 {
    let (secs, subsec_nanos) = clock_since_epoch();
    system_time_to_ms(secs, subsec_nanos)
}

} // verus!
