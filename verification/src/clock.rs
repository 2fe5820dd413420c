//! The wall clock, read as time since the Unix epoch.

use vstd::prelude::*;

verus! {

/// A reading of the clock: whole seconds since the Unix epoch and the
/// milliseconds beyond them; `None` where the clock stands before the
/// epoch.
pub type ClockReading = Option<(u64, u32)>;

/// Calls `SystemTime::now` and `SystemTime::duration_since` with the Unix
/// epoch, and reads the duration with `as_secs` and `subsec_millis`.
/// Nothing is claimed of the time itself; the milliseconds beyond the
/// seconds are fewer than a thousand.
#[verifier::external_body]
pub(crate) fn read_system_clock() -> (reading: ClockReading)
    ensures
        match reading {
            Some(r) => r.1 < 1000,
            None => true,
        },
{
    let since = std::time::SystemTime::now().duration_since(std::time::UNIX_EPOCH).ok()?;
    Some((since.as_secs(), since.subsec_millis()))
}

/// The seconds of a reading; zero where there is none.
pub open spec fn seconds_of(reading: ClockReading) -> u64 {
    match reading {
        Some(r) => r.0,
        None => 0,
    }
}

/// The milliseconds of a reading; zero where there is none.
pub open spec fn millis_of(reading: ClockReading) -> int {
    match reading {
        Some(r) => r.0 * 1000 + r.1,
        None => 0,
    }
}

/// The seconds since the Unix epoch that a reading shows.
pub fn unix_seconds_of(reading: ClockReading) -> (seconds: u64)
    ensures
        seconds == seconds_of(reading),
{
    match reading {
        Some(r) => r.0,
        None => 0,
    }
}

/// The milliseconds since the Unix epoch that a reading shows.
pub fn unix_millis_of(reading: ClockReading) -> (millis: u128)
    ensures
        millis == millis_of(reading),
{
    match reading {
        Some(r) => (r.0 as u128) * 1000 + (r.1 as u128),
        None => 0,
    }
}

/// The time in seconds since the Unix epoch; zero where the clock stands
/// before the epoch. The result is whatever the clock shows.
pub fn now_unix_seconds() -> (now: u64) {
    unix_seconds_of(read_system_clock())
}

/// The time in milliseconds since the Unix epoch; zero where the clock
/// stands before the epoch. The result is whatever the clock shows.
pub fn now_unix_millis() -> (now: u128)
    ensures
        exists|reading: ClockReading| shows_millis(reading, now),
{
    let reading = read_system_clock();
    let now = unix_millis_of(reading);
    assert(shows_millis(reading, now));
    now
}

/// Whether `millis` is the millisecond count of the reading, the reading
/// being one that the clock can give: its milliseconds beyond the seconds
/// are fewer than a thousand.
pub open spec fn shows_millis(reading: ClockReading, millis: u128) -> bool {
    &&& match reading {
        Some(r) => r.1 < 1000,
        None => true,
    }
    &&& millis == millis_of(reading)
}

} // verus!
