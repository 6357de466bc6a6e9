//! The time that advertisements carry.
use std::time::{Duration, SystemTime, SystemTimeError, UNIX_EPOCH};

use vstd::prelude::*;

verus! {

/// A point in time of the system clock, which is carried through unread.
#[verifier::external_type_specification]
#[verifier::external_body]
pub struct ExSystemTime(SystemTime);

/// The error for a point in time that lies before another.
#[verifier::external_type_specification]
#[verifier::external_body]
pub struct ExSystemTimeError(SystemTimeError);

/// `SystemTime::now`, which reads the system clock. Nothing is claimed of the time it shows.
pub assume_specification[ SystemTime::now ]() -> (now: SystemTime)
;

/// `Duration::as_secs`, which drops the part of a span below one second. Nothing is claimed of
/// the number, since a span is not read otherwise.
pub assume_specification[ Duration::as_secs ](span: &Duration) -> (secs: u64)
;

/// Calls `SystemTime::duration_since` with `UNIX_EPOCH`, which fails where the given time lies
/// before it. Nothing is claimed of the result, which rests on the clock.
#[verifier::external_body]
fn since_unix_epoch(time: SystemTime) -> (span: Result<Duration, SystemTimeError>) {
    time.duration_since(UNIX_EPOCH)
}

/// The timestamp for a number of seconds since the Unix epoch: the number itself, wrapped round
/// to the negative numbers where it exceeds the range, and 0 for a time before the epoch.
pub open spec fn timestamp(secs_since_epoch: Option<u64>) -> int {
    match secs_since_epoch {
        Some(secs) => if secs <= i64::MAX {
            secs as int
        } else {
            secs - 0x1_0000_0000_0000_0000
        },
        None => 0,
    }
}

/// The timestamp for a number of seconds since the Unix epoch.
pub fn unix_timestamp(secs_since_epoch: Option<u64>) -> (unix: i64)
    ensures
        unix == timestamp(secs_since_epoch),
{
    match secs_since_epoch {
        Some(secs) => {
            let unix: i64 = #[verifier::truncate] (secs as i64);
            assert(secs <= i64::MAX ==> secs as i64 == secs) by (bit_vector);
            assert(secs > i64::MAX ==> secs as i64 == secs - 0x1_0000_0000_0000_0000)
                by (bit_vector);
            unix
        },
        None => 0,
    }
}

/// Whether reading the clock can give this: the time that `SystemTime::now` returned lies this
/// many whole seconds after the Unix epoch, or, where there is no number, before it.
pub closed spec fn clock_shows(secs_since_epoch: Option<u64>) -> bool {
    exists|time: SystemTime, span: Result<Duration, SystemTimeError>|
        {
            &&& #[trigger] call_ensures(SystemTime::now, (), time)
            &&& #[trigger] call_ensures(since_unix_epoch, (time,), span)
            &&& match span {
                Ok(span) => secs_since_epoch is Some && call_ensures(
                    Duration::as_secs,
                    (&span,),
                    secs_since_epoch->0,
                ),
                Err(_) => secs_since_epoch is None,
            }
        }
}

/// The present time in seconds since the Unix epoch, 0 where the clock shows an earlier time.
/// Which time that is rests on the clock and is left open; the result is the timestamp of what
/// a reading of the clock gave.
pub fn unix_now() -> (unix: i64)
    ensures
        exists|secs: Option<u64>| #[trigger] clock_shows(secs) && unix == timestamp(secs),
{
    let secs: Option<u64> = match since_unix_epoch(SystemTime::now()) {
        Ok(span) => Some(span.as_secs()),
        Err(_) => None,
    };
    assert(clock_shows(secs));
    unix_timestamp(secs)
}

/// A timestamp is a 64-bit signed number that differs from the seconds since the Unix epoch by a
/// multiple of 2^64, and 0 for a time before the epoch.
pub proof fn law_timestamp_wraps_round(secs: u64)
    ensures
        -0x8000_0000_0000_0000 <= timestamp(Some(secs)) <= 0x7fff_ffff_ffff_ffff,
        (timestamp(Some(secs)) - secs) % 0x1_0000_0000_0000_0000 == 0,
        timestamp(None) == 0,
{
}

/// What the clock shows was read from it: it is how far some time that the clock returned lies
/// behind the Unix epoch, in whole seconds, and nothing only where that time lies before it.
proof fn law_clock_is_read(secs: Option<u64>)
    requires
        clock_shows(secs),
    ensures
        exists|time: SystemTime, span: Result<Duration, SystemTimeError>|
            {
                &&& #[trigger] call_ensures(SystemTime::now, (), time)
                &&& #[trigger] call_ensures(since_unix_epoch, (time,), span)
                &&& span is Ok <==> secs is Some
                &&& span is Ok ==> call_ensures(Duration::as_secs, (&span->Ok_0,), secs->0)
            },
{
}

}
