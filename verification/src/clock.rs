//! The wall clock.

use std::time::{Duration, SystemTime, SystemTimeError, UNIX_EPOCH};
use vstd::prelude::*;

verus! {

/// `std::time::SystemTime`, carried through as it is.
#[verifier::external_type_specification]
#[verifier::external_body]
pub struct ExSystemTime(std::time::SystemTime);

/// `std::time::SystemTimeError`, carried through as it is.
#[verifier::external_type_specification]
#[verifier::external_body]
pub struct ExSystemTimeError(std::time::SystemTimeError);

/// `std::time::SystemTime::now`: some moment. What moment it is rests on the machine's clock, so
/// nothing is claimed of it.
pub assume_specification[ std::time::SystemTime::now ]() -> (now: std::time::SystemTime)
;

/// `std::time::SystemTime::duration_since`: the span from an earlier moment, or an error where that
/// moment is the later one. Moments and spans are opaque here, so which span it is goes unsaid.
pub assume_specification[ std::time::SystemTime::duration_since ](
    moment: &std::time::SystemTime,
    earlier: std::time::SystemTime,
) -> (span: Result<std::time::Duration, std::time::SystemTimeError>)
;

/// `std::time::Duration::as_secs`: the whole seconds of a span. Spans are opaque here, so how many
/// there are goes unsaid.
pub assume_specification[ std::time::Duration::as_secs ](span: &std::time::Duration) -> (seconds:
    u64)
;

/// `std::time::UNIX_EPOCH`. Moments are opaque here, so which moment it is goes unsaid.
#[verifier::external_body]
fn unix_epoch() -> (epoch: SystemTime) {
    UNIX_EPOCH
}

/// `moment` is the Unix epoch, as std has it.
pub closed spec fn is_epoch(moment: SystemTime) -> bool {
    call_ensures(unix_epoch, (), moment)
}

/// What the clock reads as at `now`: the whole seconds of the span since the epoch, or nothing
/// where `now` lies before the epoch.
pub open spec fn reads_as(now: SystemTime, elapsed: Option<u64>) -> bool {
    exists|epoch: SystemTime, span: Result<Duration, SystemTimeError>|
        {
            &&& is_epoch(epoch)
            &&& #[trigger] call_ensures(SystemTime::duration_since, (&now, epoch), span)
            &&& match span {
                Ok(d) => elapsed is Some && call_ensures(Duration::as_secs, (&d,), elapsed->0),
                Err(_) => elapsed is None,
            }
        }
}

/// The count for a reading of the clock: zero where the clock is set before the epoch.
pub open spec fn counted(elapsed: Option<u64>) -> u64 {
    match elapsed {
        Some(s) => s,
        None => 0,
    }
}

/// A clock that is set before the epoch counts as standing at the epoch.
pub fn seconds_or_zero(elapsed: Option<u64>) -> (seconds: u64)
    ensures
        seconds == counted(elapsed),
{
    match elapsed {
        Some(s) => s,
        None => 0,
    }
}

/// The reading of the clock at a moment.
pub fn reading_at(now: SystemTime) -> (elapsed: Option<u64>)
    ensures
        reads_as(now, elapsed),
{
    let epoch = unix_epoch();
    let span = now.duration_since(epoch);
    assert(is_epoch(epoch));
    assert(call_ensures(SystemTime::duration_since, (&now, epoch), span));
    match span {
        Ok(d) => Some(d.as_secs()),
        Err(_) => None,
    }
}

/// The seconds since the Unix epoch by the wall clock: the count for what the clock reads as at
/// some moment that `std::time::SystemTime::now` gave. Which moment that is rests on the machine.
pub fn get_current_time_sec() -> (seconds: u64)
    ensures
        exists|now: SystemTime, elapsed: Option<u64>|
            {
                &&& call_ensures(SystemTime::now, (), now)
                &&& #[trigger] reads_as(now, elapsed)
                &&& seconds == counted(elapsed)
            },
{
    let now = SystemTime::now();
    let elapsed = reading_at(now);
    assert(reads_as(now, elapsed));
    seconds_or_zero(elapsed)
}

/// A later reading of the clock gives no smaller count, before the epoch as after it.
pub proof fn law_later_reading_counts_no_less(first: Option<u64>, second: Option<u64>)
    requires
        first is None || (second is Some && first->0 <= second->0),
    ensures
        counted(first) <= counted(second),
{
}

/// The count is what the clock reads as, and zero where it reads as nothing.
pub proof fn law_counts_what_is_read(seconds: u64)
    ensures
        counted(Some(seconds)) == seconds,
        counted(None) == 0,
{
}

} // verus!
