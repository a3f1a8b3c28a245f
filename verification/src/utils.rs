use vstd::prelude::*;

use crate::calendar::{zone_day, zone_day_at};
use crate::day::Day;

verus! {

/// The hour of the local day at which a new day of presence begins: what
/// happens before it still counts for the day before.
pub const DAY_ROLLOVER_HOUR: i64 = 5;

/// The time zone in which the space lives.
pub const TIMEZONE: &'static str = "Europe/Belgrade";

/// The instant whose local date is the day of presence at `utc_seconds`.
pub open spec fn rolled_back(utc_seconds: int) -> int {
    utc_seconds - DAY_ROLLOVER_HOUR * 3600
}

/// The local calendar day at the instant `utc_seconds`, counted in seconds
/// since the first of January 1970, UTC. `None` where the calendar does
/// not reach that instant.
pub fn day_at(utc_seconds: i64) -> (day: Option<Day>)
    ensures
        match day {
            Some(d) => zone_day(TIMEZONE@, utc_seconds as int) == Some(d.0 as int),
            None => zone_day(TIMEZONE@, utc_seconds as int).is_none(),
        },
{
    match zone_day_at(TIMEZONE, utc_seconds) {
        Some(n) => Some(Day(n)),
        None => None,
    }
}

/// The day of presence at the instant `utc_seconds`: the local calendar
/// day of the instant `DAY_ROLLOVER_HOUR` hours earlier. `None` where the
/// calendar does not reach that instant.
pub fn today_at(utc_seconds: i64) -> (day: Option<Day>)
    ensures
        match day {
            Some(d) => rolled_back(utc_seconds as int) >= i64::MIN && zone_day(
                TIMEZONE@,
                rolled_back(utc_seconds as int),
            ) == Some(d.0 as int),
            None => rolled_back(utc_seconds as int) < i64::MIN || zone_day(
                TIMEZONE@,
                rolled_back(utc_seconds as int),
            ).is_none(),
        },
{
    match utc_seconds.checked_sub(DAY_ROLLOVER_HOUR * 3600) {
        Some(shifted) => day_at(shifted),
        None => None,
    }
}

} // verus!
