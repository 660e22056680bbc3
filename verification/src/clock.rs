//! The wall clock, counted in milliseconds and nanoseconds since the Unix
//! epoch and cut to 64 bits, and the time elapsed since a chosen epoch.

use vstd::prelude::*;
use std::time::Duration;
use std::time::SystemTime;
use std::time::SystemTimeError;

verus! {

/// `std::time::SystemTime`, a reading of the system clock. Nothing is known
/// of what it holds.
#[verifier::external_type_specification]
#[verifier::external_body]
pub struct ExSystemTime(SystemTime);

/// `std::time::SystemTimeError`, the error of a clock that reads earlier
/// than the instant it is compared with.
#[verifier::external_type_specification]
#[verifier::external_body]
pub struct ExSystemTimeError(SystemTimeError);

/// `SystemTime::now` reads the system clock. Nothing is claimed of the
/// reading: two calls may differ, and the clock may be set back.
pub assume_specification[ SystemTime::now ]() -> (reading: SystemTime);

/// `Duration::as_millis`: the whole milliseconds in a duration. Nothing is
/// claimed of the number.
pub assume_specification[ Duration::as_millis ](duration: &Duration) -> (millis: u128);

/// `Duration::as_nanos`: the nanoseconds in a duration. Nothing is claimed
/// of the number.
pub assume_specification[ Duration::as_nanos ](duration: &Duration) -> (nanos: u128);

/// `SystemTime::duration_since` against `UNIX_EPOCH`: how long after the
/// Unix epoch the reading was taken, or an error where it was taken before.
/// Nothing is claimed of which comes back.
#[verifier::external_body]
fn since_unix_epoch(reading: &SystemTime) -> (outcome: Result<Duration, SystemTimeError>) {
    reading.duration_since(std::time::UNIX_EPOCH)
}

/// The milliseconds from `epoch` to `now`, and zero where `epoch` lies in
/// the future: the difference never goes negative and never wraps.
pub open spec fn elapsed(now: u64, epoch: u64) -> u64 {
    if now >= epoch {
        (now - epoch) as u64
    } else {
        0
    }
}

/// The milliseconds from `epoch` to `now`, saturating at zero.
pub fn elapsed_since(now: u64, epoch: u64) -> (ts: u64)
    ensures
        ts == elapsed(now, epoch),
        epoch >= now ==> ts == 0,
        ts <= now,
{
    now.saturating_sub(epoch)
}

/// The system clock in whole milliseconds since the Unix epoch, cut to 64
/// bits. A clock set before the Unix epoch reads zero.
pub(crate) fn unix_millis() -> (millis: u64) {
    let reading = SystemTime::now();
    match since_unix_epoch(&reading) {
        Ok(duration) => {
            let millis: u128 = duration.as_millis();
            let count = Some(millis);
            keep_count(count)
        },
        Err(_) => keep_count(None),
    }
}

/// The system clock in nanoseconds since the Unix epoch, cut to 64 bits. A
/// clock set before the Unix epoch reads zero.
pub(crate) fn unix_nanos() -> (nanos: u64) {
    let reading = SystemTime::now();
    match since_unix_epoch(&reading) {
        Ok(duration) => {
            let nanos: u128 = duration.as_nanos();
            let count = Some(nanos);
            keep_count(count)
        },
        Err(_) => keep_count(None),
    }
}

/// What is kept of a count that the clock gave: its low 64 bits. Where the
/// clock gave no count, because it reads before the Unix epoch, zero is
/// kept.
pub open spec fn kept(count: Option<u128>) -> u64 {
    match count {
        Some(units) => (units & 0xFFFF_FFFF_FFFF_FFFF) as u64,
        None => 0,
    }
}

/// Cuts a count of the clock to 64 bits, and reads a missing count as zero.
pub fn keep_count(count: Option<u128>) -> (reading: u64)
    ensures
        reading == kept(count),
        count matches Some(units) ==> reading == units % 0x1_0000_0000_0000_0000,
        count is None ==> reading == 0,
{
    match count {
        Some(units) => {
            assert((units & 0xFFFF_FFFF_FFFF_FFFF) as u64 == units as u64 && units as u64 == units
                % 0x1_0000_0000_0000_0000) by (bit_vector);
            #[verifier::truncate]
            (units as u64)
        },
        None => 0,
    }
}

} // verus!
