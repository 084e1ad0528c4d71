use vstd::prelude::*;

verus! {

/// Seconds elapsed since the Unix epoch.
///
/// Relies on std::time::SystemTime::now and its duration_since from
/// UNIX_EPOCH: the wall clock is an environment reading, so nothing is
/// promised of the value.  A clock set before the epoch reads as zero
/// rather than panicking.
#[verifier::external_body]
fn system_time_seconds() -> u64 {
    match std::time::SystemTime::now().duration_since(std::time::UNIX_EPOCH) {
        Ok(elapsed) => elapsed.as_secs(),
        Err(_) => 0,
    }
}

/// The current Unix timestamp in seconds, read from the system clock; it
/// feeds the `now` argument of the stamped ledger operations.
pub fn current_timestamp() -> u64 {
    system_time_seconds()
}

/// The day of month of the current UTC date.
///
/// Relies on chrono's DateTime::from_timestamp and Datelike::day; chrono
/// documents the day as ranging from 1 to 31.  Which day it is depends on
/// the clock, so only that range is promised.  A clock before the epoch or
/// beyond chrono's representable years reads as day 1 rather than
/// panicking.
#[verifier::external_body]
fn current_day_of_month() -> (day: u32)
    ensures
        1 <= day <= 31,
{
    let seconds = match std::time::SystemTime::now().duration_since(std::time::UNIX_EPOCH) {
        Ok(elapsed) => i64::try_from(elapsed.as_secs()).unwrap_or(0),
        Err(_) => 0,
    };
    match chrono::DateTime::from_timestamp(seconds, 0) {
        Some(date_time) => chrono::Datelike::day(&date_time),
        None => 1,
    }
}

/// The payout-day policy: only the first calendar day of a month is an
/// automatic payout day.
pub fn is_payout_day_for(day: u32) -> (payout: bool)
    ensures
        payout == (day == 1),
{
    day == 1
}

/// Whether today (UTC) is an automatic payout day.  The day is an
/// environment reading, so the result is not pinned here; the policy
/// itself is `is_payout_day_for`.
pub fn is_payout_day() -> bool {
    let day = current_day_of_month();
    is_payout_day_for(day)
}

} // verus!
