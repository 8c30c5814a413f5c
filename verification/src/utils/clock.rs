//! The wall clock, in whole seconds since the Unix epoch.

use vstd::prelude::*;

verus! {

/// Reads the system clock through `chrono::Utc::now` and returns
/// `DateTime::timestamp` of it. Nothing is claimed of the value: it is the
/// machine's time.
#[verifier::external_body]
fn system_seconds() -> i64 {
    chrono::Utc::now().timestamp()
}

/// The seconds that `seconds` stands for on an unsigned clock: a time before
/// the epoch counts as the epoch.
pub open spec fn clamp_to_epoch(seconds: i64) -> u64 {
    if seconds < 0 {
        0
    } else {
        seconds as u64
    }
}

/// Turns a signed timestamp into the unsigned seconds that the library
/// counts in.
pub fn seconds_since_epoch(seconds: i64) -> (now: u64)
    ensures
        now == clamp_to_epoch(seconds),
{
    if seconds < 0 {
        0
    } else {
        seconds as u64
    }
}

/// Whether `at` is a time that the clock can show: it fits a signed
/// timestamp.
pub open spec fn is_clock_value(at: u64) -> bool {
    at <= i64::MAX
}

/// The current time, in seconds since the epoch: the timestamp of the system
/// clock, a time before the epoch counted as the epoch. Which timestamp that
/// is, the machine decides.
pub fn now() -> (now: u64)
    ensures
        exists|seconds: i64| now == #[trigger] clamp_to_epoch(seconds),
        is_clock_value(now),
{
    seconds_since_epoch(system_seconds())
}

} // verus!
