//! The solar events of a date, as instants, and the placing of a fractional
//! hour of the day on the time line.
use vstd::prelude::*;

use crate::ops::{days_in_year, instant_in_range, INSTANT_LIMIT};

verus! {

/// The solar events of one calendar date, in seconds since the epoch, as the
/// solar position computations give them for a location and a set of
/// parameters.
#[derive(PartialEq, Eq, Structural, Debug, Copy, Clone)]
pub struct SolarEvents {
    /// The Gregorian year of the date.
    pub year: u32,
    /// The ordinal of the date within its year, from 1.
    pub day_of_year: u32,
    /// The sun crosses the meridian.
    pub transit: i64,
    pub sunrise: i64,
    pub sunset: i64,
    /// Asr: the afternoon time for the madhab's shadow length.
    pub afternoon: i64,
    /// The sun at the Fajr depression before transit, where it gets there.
    pub dawn: Option<i64>,
    /// The sun at the Isha depression after transit, where it gets there.
    pub dusk: Option<i64>,
}

pub open spec fn optional_in_range(t: Option<i64>) -> bool {
    match t {
        Some(v) => instant_in_range(v as int),
        None => true,
    }
}

impl SolarEvents {
    /// The date is a day of its year and every instant is within
    /// `INSTANT_LIMIT`.
    pub open spec fn wf(&self) -> bool {
        &&& 1 <= self.day_of_year <= days_in_year(self.year as int)
        &&& instant_in_range(self.transit as int)
        &&& instant_in_range(self.sunrise as int)
        &&& instant_in_range(self.sunset as int)
        &&& instant_in_range(self.afternoon as int)
        &&& optional_in_range(self.dawn)
        &&& optional_in_range(self.dusk)
    }

    pub fn is_valid(&self) -> (r: bool)
        ensures
            r == self.wf(),
    {
        let days: u32 = if crate::ops::is_leap_year(self.year) { 366 } else { 365 };
        1 <= self.day_of_year && self.day_of_year <= days && in_range(self.transit) && in_range(
            self.sunrise,
        ) && in_range(self.sunset) && in_range(self.afternoon) && match self.dawn {
            Some(v) => in_range(v),
            None => true,
        } && match self.dusk {
            Some(v) => in_range(v),
            None => true,
        }
    }
}

fn in_range(t: i64) -> (r: bool)
    ensures
        r == instant_in_range(t as int),
{
    -INSTANT_LIMIT <= t && t <= INSTANT_LIMIT
}

/// The instant `hours:minutes:seconds` after the midnight that opens a date,
/// to the nearest minute (30 seconds and more round up). An hour below 0 or
/// from 24 on falls on the date before or after.
pub open spec fn instant_of_hour(midnight: int, hours: int, minutes: int, seconds: int) -> int {
    midnight + 3600 * hours + 60 * (minutes + if seconds >= 30 { 1int } else { 0int })
}

/// Places a time of day, given as whole hours and the whole minutes and
/// seconds of the remainder, on the date that starts at `midnight`, rounded to
/// the nearest minute.
pub fn time_of_day(midnight: i64, hours: i64, minutes: i64, seconds: i64) -> (r: i64)
    requires
        instant_in_range(midnight as int),
        -1_000_000 <= hours <= 1_000_000,
        0 <= minutes < 60,
        0 <= seconds < 60,
    ensures
        r == instant_of_hour(midnight as int, hours as int, minutes as int, seconds as int),
{
    let rounded: i64 = if seconds >= 30 { minutes + 1 } else { minutes };
    midnight + 3600 * hours + 60 * rounded
}

} // verus!
