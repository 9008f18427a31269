//! The system clock and texts about points in time.

use vstd::prelude::*;
use std::time::{Duration, SystemTime, SystemTimeError};
use crate::text;

verus! {

/// A point in time of the system clock.
#[verifier::external_type_specification]
#[verifier::external_body]
pub struct ExSystemTime(SystemTime);

/// The error of a clock that stands before the point it is measured from.
#[verifier::external_type_specification]
#[verifier::external_body]
pub struct ExSystemTimeError(SystemTimeError);

/// `SystemTime::now` reads the system clock; nothing is claimed of the reading.
pub assume_specification[ SystemTime::now ]() -> (now: SystemTime);

/// `SystemTime::duration_since`, called with the point in time at which 1970 began;
/// nothing is claimed of the outcome, which rests on a clock reading.
#[verifier::external_body]
fn since_epoch(time: &SystemTime) -> (elapsed: Result<Duration, SystemTimeError>) {
    time.duration_since(std::time::UNIX_EPOCH)
}

/// `Duration::as_secs` gives the whole seconds of a duration; nothing is claimed of
/// their number, which rests on clock readings.
pub assume_specification[ Duration::as_secs ](duration: &Duration) -> (secs: u64);

/// The seconds of a clock reading; 0 for a clock that stands before 1970.
pub fn secs_or_zero(elapsed: Option<u64>) -> (secs: i64)
    ensures
        secs == (match elapsed {
            Some(s) => s as i64,
            None => 0i64,
        }),
{
    match elapsed {
        Some(s) => #[verifier::truncate] (s as i64),
        None => 0,
    }
}

/// The seconds that the system clock has counted since 1970 began.
pub fn now_secs() -> (secs: i64) {
    match since_epoch(&SystemTime::now()) {
        Ok(elapsed) => secs_or_zero(Some(elapsed.as_secs())),
        Err(_) => secs_or_zero(None),
    }
}

/// The time from `then` to `now` in seconds, as a 64-bit number that wraps around.
pub open spec fn secs_between(then: i64, now: i64) -> int {
    let diff = now - then;
    if diff > i64::MAX {
        diff - 0x1_0000_0000_0000_0000
    } else if diff < i64::MIN {
        diff + 0x1_0000_0000_0000_0000
    } else {
        diff
    }
}

/// The time from `then` to `now` in seconds.
pub fn secs_since(then: i64, now: i64) -> (diff: i64)
    ensures
        diff == secs_between(then, now),
{
    now.wrapping_sub(then)
}

/// How long ago something was that lies `diff` seconds back: in the largest unit of
/// seconds, minutes, hours and days of which one is complete, rounded down.
pub open spec fn relative_text(diff: int) -> Seq<char> {
    if diff < 0 {
        "in the future"@
    } else if diff < 60 {
        text::decimal(diff as nat) + "s ago"@
    } else if diff < 3600 {
        text::decimal((diff / 60) as nat) + "m ago"@
    } else if diff < 86400 {
        text::decimal((diff / 3600) as nat) + "h ago"@
    } else {
        text::decimal((diff / 86400) as nat) + "d ago"@
    }
}

/// How long before `now` the point in time `epoch_secs` was.
pub fn format_relative_at(epoch_secs: i64, now: i64) -> (s: String)
    ensures
        s@ == relative_text(secs_between(epoch_secs, now)),
{
    let diff = secs_since(epoch_secs, now);
    if diff < 0 {
        return "in the future".to_owned();
    }
    let secs = diff as u64;
    if secs < 60 {
        text::concat2(text::number(secs).as_str(), "s ago")
    } else if secs < 3600 {
        text::concat2(text::number(secs / 60).as_str(), "m ago")
    } else if secs < 86400 {
        text::concat2(text::number(secs / 3600).as_str(), "h ago")
    } else {
        text::concat2(text::number(secs / 86400).as_str(), "d ago")
    }
}

/// How long ago the point in time `epoch_secs` was, by the system clock.
pub fn format_relative(epoch_secs: i64) -> (s: String)
    ensures
        exists|now: i64| s@ == relative_text(#[trigger] secs_between(epoch_secs, now)),
{
    let now = now_secs();
    let s = format_relative_at(epoch_secs, now);
    assert(s@ == relative_text(secs_between(epoch_secs, now)));
    s
}

/// How long ago something was that lies `secs` seconds back, in seconds, minutes or
/// hours.
pub open spec fn elapsed_text(secs: nat) -> Seq<char> {
    if secs < 60 {
        text::decimal(secs) + "s ago"@
    } else if secs < 3600 {
        text::decimal(secs / 60) + "m ago"@
    } else {
        text::decimal(secs / 3600) + "h ago"@
    }
}

/// How long ago something was that lies `secs` seconds back.
pub fn format_elapsed(secs: u64) -> (s: String)
    ensures
        s@ == elapsed_text(secs as nat),
{
    if secs < 60 {
        text::concat2(text::number(secs).as_str(), "s ago")
    } else if secs < 3600 {
        text::concat2(text::number(secs / 60).as_str(), "m ago")
    } else {
        text::concat2(text::number(secs / 3600).as_str(), "h ago")
    }
}

/// The full seconds from one reading of a monotonic clock in nanoseconds to another; 0
/// where the second reading is not the later one.
pub open spec fn elapsed_secs(then: u64, clock: u64) -> nat {
    if clock > then {
        ((clock - then) / 1_000_000_000) as nat
    } else {
        0
    }
}

/// The full seconds from one reading of a monotonic clock in nanoseconds to another.
pub fn secs_elapsed(then: u64, clock: u64) -> (secs: u64)
    ensures
        secs == elapsed_secs(then, clock),
{
    if clock > then {
        (clock - then) / 1_000_000_000
    } else {
        0
    }
}

} // verus!
