//! Readings of the system clock.

use vstd::prelude::*;

verus! {

/// `std::time::SystemTime` is carried from the clock to the epoch
/// subtraction and nowhere else.
#[verifier::external_type_specification]
#[verifier::external_body]
pub struct ExSystemTime(std::time::SystemTime);

/// Reads the system clock through `std::time::SystemTime::now`. Nothing is
/// claimed about the reading.
#[verifier::external_body]
pub(crate) fn system_time_now() -> (t: std::time::SystemTime) {
    std::time::SystemTime::now()
}

/// Calls `SystemTime::duration_since` against `UNIX_EPOCH`. The call fails
/// when the clock reads earlier than the epoch; that outcome becomes `None`.
/// Nothing is claimed about which outcome occurs.
#[verifier::external_body]
pub(crate) fn since_unix_epoch(t: &std::time::SystemTime) -> (d: Option<std::time::Duration>) {
    t.duration_since(std::time::UNIX_EPOCH).ok()
}

/// Calls `Duration::as_millis`: the whole milliseconds in the duration.
/// Nothing is claimed about the number.
#[verifier::external_body]
pub(crate) fn duration_as_millis(d: &std::time::Duration) -> (ms: u128) {
    d.as_millis()
}

/// Calls `Duration::as_secs`: the whole seconds in the duration. Nothing is
/// claimed about the number.
#[verifier::external_body]
pub(crate) fn duration_as_secs(d: &std::time::Duration) -> (secs: u64) {
    d.as_secs()
}

/// Seconds since the Unix epoch according to the system clock. A clock that
/// reads earlier than the epoch gives 0.
pub fn unix_seconds_now() -> (secs: u64) {
    let t = system_time_now();
    let since_epoch = match since_unix_epoch(&t) {
        Some(d) => Some(duration_as_secs(&d)),
        None => None,
    };
    seconds_stamp(since_epoch)
}

/// The stamp in seconds for a reading of the clock: the seconds since the
/// epoch, or 0 where the clock read earlier than the epoch.
pub open spec fn seconds_stamp_of(since_epoch: Option<u64>) -> u64 {
    match since_epoch {
        Some(secs) => secs,
        None => 0,
    }
}

/// The stamp in milliseconds for a reading of the clock: the low 64 bits
/// of the milliseconds since the epoch, or 0 where the clock read earlier
/// than the epoch.
pub open spec fn millis_stamp_of(since_epoch: Option<u128>) -> u64 {
    match since_epoch {
        Some(millis) => millis as u64,
        None => 0,
    }
}

/// Turns a reading of the clock, in whole seconds since the epoch, into a
/// stamp. `None` stands for a clock that read earlier than the epoch.
pub fn seconds_stamp(since_epoch: Option<u64>) -> (secs: u64)
    ensures
        secs == seconds_stamp_of(since_epoch),
{
    match since_epoch {
        Some(secs) => secs,
        None => 0,
    }
}

/// Turns a reading of the clock, in whole milliseconds since the epoch,
/// into a stamp of 64 bits. `None` stands for a clock that read earlier
/// than the epoch. A reading that fits in 64 bits is the stamp itself.
pub fn millis_stamp(since_epoch: Option<u128>) -> (millis: u64)
    ensures
        millis == millis_stamp_of(since_epoch),
        since_epoch matches Some(wide) ==> (wide <= u64::MAX ==> millis == wide),
{
    match since_epoch {
        Some(wide) => {
            #[verifier::truncate]
            let millis: u64 = wide as u64;
            millis
        },
        None => 0,
    }
}

} // verus!
