use vstd::prelude::*;

verus! {

/// A point in time as whole seconds since the Unix epoch plus nanoseconds.
#[derive(Clone, Copy, Debug, PartialEq, Eq, Structural)]
pub struct Timestamp {
    pub secs: i64,
    pub nanos: u32,
}

/// The last second that chrono can represent (December 31, 262142 CE, 23:59:59 UTC).
pub const MAX_TIMESTAMP: i64 = 8210266876799;

/// Reads the clock through `chrono::Utc::now`.
///
/// Claimed of the reading, as chrono's source builds it from the system time
/// since the Unix epoch (`Duration::as_secs` and `subsec_nanos`) and unwraps
/// `DateTime::from_timestamp`: the seconds lie between the epoch and
/// `MAX_TIMESTAMP`, and the nanoseconds are below one second. chrono panics
/// instead of returning on a system clock set before the epoch. Which instant
/// is read is left unsaid: it is the machine's clock.
#[verifier::external_body]
pub(crate) fn utc_now() -> (t: Timestamp)
    ensures
        0 <= t.secs <= MAX_TIMESTAMP,
        t.nanos < 1_000_000_000,
{
    let now = chrono::Utc::now();
    Timestamp { secs: now.timestamp(), nanos: now.timestamp_subsec_nanos() }
}

/// `t` is a value that a call of the clock (`utc_now`) has returned. Nothing
/// but such a call establishes it, so a value made up by other means is not
/// a clock reading.
pub closed spec fn is_clock_reading(t: Timestamp) -> bool {
    call_ensures(utc_now, (), t)
}

/// Reads the clock: the current time, within chrono's range.
pub fn read_clock() -> (t: Timestamp)
    ensures
        is_clock_reading(t),
        0 <= t.secs <= MAX_TIMESTAMP,
        t.nanos < 1_000_000_000,
{
    let clock = utc_now;
    clock()
}

/// The second reached by moving `secs` seconds on from `from`, when chrono can
/// represent it (`checked_add_signed` on a UTC date-time).
pub open spec fn seconds_after(from: i64, secs: i64) -> Option<i64> {
    if from + secs <= MAX_TIMESTAMP {
        Some((from + secs) as i64)
    } else {
        None
    }
}

/// Adds `secs` seconds to a reading of the clock, failing where the sum leaves
/// the range of representable instants.
pub fn checked_add_seconds(from: Timestamp, secs: i64) -> (r: Option<i64>)
    requires
        0 <= from.secs <= MAX_TIMESTAMP,
        0 <= secs <= MAX_TIMESTAMP,
    ensures
        r == seconds_after(from.secs, secs),
{
    if from.secs <= MAX_TIMESTAMP - secs {
        Some(from.secs + secs)
    } else {
        None
    }
}

} // verus!
