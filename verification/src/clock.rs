//! The clocks that the service reads.

use vstd::prelude::*;

verus! {

/// `std::time::Instant`, a reading of the monotonic clock.  Nothing is
/// known of what it holds; it is only carried along.
#[verifier::external_type_specification]
#[verifier::external_body]
pub struct ExInstant(std::time::Instant);

/// `Instant::now` reads the monotonic clock; nothing is known of the value.
#[verifier::external_body]
pub(crate) fn instant_now() -> (now: std::time::Instant) {
    std::time::Instant::now()
}

/// `Instant::elapsed` gives the time that has passed since the instant, here
/// in whole milliseconds; nothing is known of the value.
#[verifier::external_body]
pub(crate) fn millis_since(start: &std::time::Instant) -> (millis: u128) {
    start.elapsed().as_millis()
}

/// `std::time::SystemTime`, a reading of the wall clock.  Nothing is known
/// of what it holds; it is only carried along.
#[verifier::external_type_specification]
#[verifier::external_body]
pub struct ExSystemTime(std::time::SystemTime);

/// `SystemTime::now` reads the wall clock; nothing is known of the value.
#[verifier::external_body]
pub(crate) fn system_now() -> (now: std::time::SystemTime) {
    std::time::SystemTime::now()
}

/// `SystemTime::duration_since`, here against the epoch, tells how far a
/// reading of the wall clock stands from it: `Ok` with the whole seconds
/// after the epoch, or `Err` with the whole seconds before it.  Nothing is
/// known of the numbers.
#[verifier::external_body]
pub(crate) fn seconds_from_epoch(time: &std::time::SystemTime) -> (seconds: Result<u64, u64>) {
    match time.duration_since(std::time::UNIX_EPOCH) {
        Ok(after) => Ok(after.as_secs()),
        Err(before) => Err(before.duration().as_secs()),
    }
}

/// The signed count of seconds that a distance from the epoch stands for:
/// the seconds after the epoch, or the seconds before it with a minus
/// sign.  A count that does not fit is the largest or smallest that does.
pub open spec fn reading_of(distance: Result<u64, u64>) -> i64 {
    match distance {
        Ok(after) => if after > i64::MAX {
            i64::MAX
        } else {
            after as i64
        },
        Err(before) => if before > i64::MAX {
            i64::MIN
        } else {
            (-before) as i64
        },
    }
}

/// The signed count of seconds that a distance from the epoch stands for.
pub fn reading(distance: Result<u64, u64>) -> (seconds: i64)
    ensures
        seconds == reading_of(distance),
{
    match distance {
        Ok(after) => if after > i64::MAX as u64 {
            i64::MAX
        } else {
            after as i64
        },
        Err(before) => if before > i64::MAX as u64 {
            i64::MIN
        } else {
            -(before as i64)
        },
    }
}

/// The moment that a reading of the wall clock stands for: the reading
/// itself, and zero for a reading before the epoch.
pub open spec fn moment_of(seconds: i64) -> u64 {
    if seconds < 0 {
        0
    } else {
        seconds as u64
    }
}

/// The moment that a reading of the wall clock stands for.
pub fn moment(seconds: i64) -> (now: u64)
    ensures
        now == moment_of(seconds),
{
    if seconds < 0 {
        0
    } else {
        seconds as u64
    }
}

/// The wall clock in seconds since the epoch; a clock before the epoch reads as zero.
///
/// Which reading the clock gives is not known; whatever it is, the result
/// is the moment that it stands for.
pub fn unix_now() -> (now: u64)
    ensures
        exists|seconds: i64| now == #[trigger] moment_of(seconds),
        now <= i64::MAX,
{
    let time = system_now();
    let seconds = reading(seconds_from_epoch(&time));
    let now = moment(seconds);
    assert(now == moment_of(seconds));
    now
}

} // verus!
