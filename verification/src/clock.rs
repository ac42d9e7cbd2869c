//! Wall-clock arithmetic.
use std::time::{Duration, SystemTime, UNIX_EPOCH};
use vstd::prelude::*;

verus! {

/// `std::time::SystemTime`, a reading of the wall clock.
#[verifier::external_type_specification]
#[verifier::external_body]
pub struct ExSystemTime(std::time::SystemTime);

/// The time from the Unix epoch to a reading of the wall clock; nothing for a
/// reading before the epoch.
pub uninterp spec fn epoch_offset(t: SystemTime) -> Option<Duration>;

/// The whole seconds of a duration.
pub uninterp spec fn duration_secs(d: Duration) -> u64;

/// `SystemTime::now`: the current reading of the wall clock. Which reading it is
/// depends on the time of the call, so nothing is claimed of it.
#[verifier::external_body]
fn read_clock() -> (now: SystemTime) {
    SystemTime::now()
}

/// `SystemTime::duration_since` with the Unix epoch: the time since the epoch,
/// or nothing for a reading before it. The result is a function of the reading.
#[verifier::external_body]
fn since_epoch(t: SystemTime) -> (d: Option<Duration>)
    ensures
        d == epoch_offset(t),
{
    t.duration_since(UNIX_EPOCH).ok()
}

/// `Duration::as_secs`: the whole seconds of a duration, a function of the
/// duration.
#[verifier::external_body]
fn whole_secs(d: Duration) -> (secs: u64)
    ensures
        secs == duration_secs(d),
{
    d.as_secs()
}

/// The whole seconds from the Unix epoch to a reading; zero for a reading before
/// the epoch.
pub open spec fn epoch_secs(t: SystemTime) -> u64 {
    match epoch_offset(t) {
        Some(d) => duration_secs(d),
        None => 0,
    }
}

/// Seconds since the Unix epoch at a reading of the wall clock; zero if the clock
/// reads earlier than the epoch.
pub fn unix_secs_at(t: SystemTime) -> (secs: u64)
    ensures
        secs == epoch_secs(t),
{
    match since_epoch(t) {
        Some(d) => whole_secs(d),
        None => 0,
    }
}

/// Seconds since the Unix epoch by the wall clock: those of the reading that the
/// clock gives at the call.
pub fn unix_secs() -> (secs: u64)
    ensures
        exists|t: SystemTime| secs == #[trigger] epoch_secs(t),
{
    unix_secs_at(read_clock())
}

/// The UTC day of the week, Monday = 0 to Sunday = 6. The Unix epoch fell on a
/// Thursday.
pub open spec fn weekday(secs: int) -> int {
    (secs / 86400 + 3) % 7
}

/// The UTC hour of the day.
pub open spec fn day_hour(secs: int) -> int {
    (secs % 86400) / 3600
}

/// The UTC hour of the day, 0-23, at a number of seconds since the Unix epoch.
pub fn hour_of_day_at(secs: u64) -> (h: u8)
    ensures
        h == day_hour(secs as int),
        h < 24,
{
    ((secs % 86400) / 3600) as u8
}

/// The UTC hour of the week, 0-167, at a number of seconds since the Unix epoch:
/// Monday midnight is hour 0.
pub fn hour_of_week_at(secs: u64) -> (h: i32)
    ensures
        h == weekday(secs as int) * 24 + day_hour(secs as int),
        0 <= h < 168,
{
    let day_of_week: u64 = (secs / 86400 + 3) % 7;
    let hour_of_day: u64 = (secs % 86400) / 3600;
    (day_of_week * 24 + hour_of_day) as i32
}

/// Whether the UTC day is a Saturday or a Sunday at a number of seconds since the
/// Unix epoch.
pub fn is_weekend_at(secs: u64) -> (b: bool)
    ensures
        b == (weekday(secs as int) >= 5),
{
    (secs / 86400 + 3) % 7 >= 5
}

/// The current UTC hour of the day: that of the reading that the clock gives at
/// the call.
pub fn current_hour_of_day() -> (h: u8)
    ensures
        exists|t: SystemTime| h == day_hour(#[trigger] epoch_secs(t) as int),
        h < 24,
{
    hour_of_day_at(unix_secs())
}

/// The current UTC hour of the week: that of the reading that the clock gives at
/// the call.
pub fn current_hour_of_week() -> (h: i32)
    ensures
        exists|t: SystemTime|
            h == weekday(#[trigger] epoch_secs(t) as int) * 24 + day_hour(epoch_secs(t) as int),
        0 <= h < 168,
{
    hour_of_week_at(unix_secs())
}

/// The hour of the week determines the hour of the day and the weekend: the one
/// is its remainder by 24, and the other starts at hour 120.
pub proof fn law_hour_of_week_splits(secs: u64)
    ensures
        ({
            let week = weekday(secs as int) * 24 + day_hour(secs as int);
            &&& week % 24 == day_hour(secs as int)
            &&& week / 24 == weekday(secs as int)
            &&& weekday(secs as int) >= 5 <==> week >= 120
        }),
{
}

/// Days follow each other: a day later the weekday is the next one, the hour of the day
/// is the same; an hour later the hour is the next one. The count starts on a
/// Thursday at midnight.
pub proof fn law_days_and_hours_follow(secs: int)
    requires
        secs >= 0,
    ensures
        weekday(0) == 3,
        day_hour(0) == 0,
        weekday(secs + 86400) == (if weekday(secs) == 6 {
            0
        } else {
            weekday(secs) + 1
        }),
        day_hour(secs + 86400) == day_hour(secs),
        day_hour(secs + 3600) == (if day_hour(secs) == 23 {
            0
        } else {
            day_hour(secs) + 1
        }),
        0 <= weekday(secs) < 7,
        0 <= day_hour(secs) < 24,
{
}

/// Within an hour nothing changes: from the first second of an hour since the epoch to
/// its last, the hour of the day and the weekday are the same.
pub proof fn law_an_hour_is_constant(hour: int, a: int, b: int)
    requires
        hour >= 0,
        0 <= a < 3600,
        0 <= b < 3600,
    ensures
        day_hour(hour * 3600 + a) == day_hour(hour * 3600 + b),
        weekday(hour * 3600 + a) == weekday(hour * 3600 + b),
{
}

/// A reading before the epoch counts as the epoch; any other reading counts the whole
/// seconds of its offset.
pub proof fn law_readings_before_the_epoch_are_zero(t: SystemTime)
    ensures
        epoch_offset(t) is None ==> epoch_secs(t) == 0,
        epoch_offset(t) is Some ==> epoch_secs(t) == duration_secs(epoch_offset(t)->0),
{
}

} // verus!
