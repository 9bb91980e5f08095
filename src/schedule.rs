//! The prayer schedule of a day: the rules that turn the solar events of a
//! date into prayer times, and the lookup of the prayer active at an instant.
use vstd::arithmetic::div_mod::{lemma_div_by_multiple, lemma_div_is_ordered};
use vstd::prelude::*;

use crate::method::Method;
use crate::ops::{
    abs, instant_in_range, nearest, nearest_minute, nearest_minute_of, season_adjusted_evening_twilight,
    season_adjusted_morning_twilight, trunc_div, truncating_div, twilight_minutes, Daytime, INSTANT_LIMIT,
};
use crate::parameters::{NightPortion, Parameters};
use crate::prayer::Prayer;
use crate::solar::SolarEvents;
use crate::unit::{Coordinates, DEGREE};

verus! {

/// The instants of a schedule, in seconds since the epoch.
pub struct Times {
    pub fajr: int,
    pub sunrise: int,
    pub dhuhr: int,
    pub asr: int,
    pub maghrib: int,
    pub isha: int,
    pub middle_of_the_night: int,
    pub qiyam: int,
    pub fajr_tomorrow: int,
}

impl Times {
    /// Each prayer comes strictly after the one before it.
    pub open spec fn ordered(self) -> bool {
        &&& self.fajr < self.sunrise
        &&& self.sunrise < self.dhuhr
        &&& self.dhuhr < self.asr
        &&& self.asr < self.maghrib
        &&& self.maghrib < self.isha
        &&& self.isha < self.qiyam
        &&& self.qiyam < self.fajr_tomorrow
    }

    /// The time of a prayer.
    pub open spec fn at(self, prayer: Prayer) -> int {
        match prayer {
            Prayer::Fajr => self.fajr,
            Prayer::Sunrise => self.sunrise,
            Prayer::Dhuhr => self.dhuhr,
            Prayer::Asr => self.asr,
            Prayer::Maghrib => self.maghrib,
            Prayer::Isha => self.isha,
            Prayer::Qiyam => self.qiyam,
            Prayer::FajrTomorrow => self.fajr_tomorrow,
        }
    }

    /// The prayer whose time has come last at instant `t`; none before Fajr,
    /// and none from tomorrow's Fajr on, where the schedule of the next day
    /// takes over.
    pub open spec fn active(self, t: int) -> Option<Prayer> {
        if t >= self.fajr_tomorrow {
            None
        } else if t >= self.qiyam {
            Some(Prayer::Qiyam)
        } else if t >= self.isha {
            Some(Prayer::Isha)
        } else if t >= self.maghrib {
            Some(Prayer::Maghrib)
        } else if t >= self.asr {
            Some(Prayer::Asr)
        } else if t >= self.dhuhr {
            Some(Prayer::Dhuhr)
        } else if t >= self.sunrise {
            Some(Prayer::Sunrise)
        } else if t >= self.fajr {
            Some(Prayer::Fajr)
        } else {
            None
        }
    }
}

/// The Moonsighting Committee replaces the twilight angles by a seventh of the
/// night from 55 degrees of latitude on.
pub open spec fn seventh_of_night_rule(params: Parameters, latitude: int) -> bool {
    params.method == Method::MoonsightingCommittee && abs(latitude) >= 55 * DEGREE
}

/// `portion` of `night` seconds, rounded toward zero.
pub open spec fn share(portion: NightPortion, night: int) -> int {
    trunc_div(portion.numerator * night, portion.denominator as int)
}

/// The earliest Fajr allowed: the seasonal model's whole minutes before
/// sunrise for the Moonsighting Committee, else the morning portion of the night before
/// sunrise.
pub open spec fn morning_floor(params: Parameters, latitude: int, day: SolarEvents, night: int) -> int {
    if params.method == Method::MoonsightingCommittee {
        day.sunrise - 60 * twilight_minutes(Daytime::Morning, latitude, day.day_of_year as int, day.year as int)
    } else {
        day.sunrise - share(params.portions().0, night)
    }
}

/// The latest Isha allowed: the seasonal model's whole minutes after sunset
/// for the Moonsighting Committee, else the evening portion of the night after
/// sunset.
pub open spec fn evening_ceiling(params: Parameters, latitude: int, day: SolarEvents, night: int) -> int {
    if params.method == Method::MoonsightingCommittee {
        day.sunset + 60 * twilight_minutes(Daytime::Evening, latitude, day.day_of_year as int, day.year as int)
    } else {
        day.sunset + share(params.portions().1, night)
    }
}

/// Fajr before its minute adjustment: the sun at the Fajr angle (or a seventh
/// of the night before sunrise, under the Moonsighting Committee's rule), but
/// never before the morning floor, which also stands in where the sun never
/// reaches the angle.
pub open spec fn fajr_unadjusted(params: Parameters, latitude: int, day: SolarEvents, night: int) -> int {
    let floor = morning_floor(params, latitude, day, night);
    if seventh_of_night_rule(params, latitude) {
        let t = day.sunrise - trunc_div(night, 7);
        if t < floor { floor } else { t }
    } else {
        match day.dawn {
            Some(t) => if t < floor { floor } else { t as int },
            None => floor,
        }
    }
}

/// Isha before its minute adjustment: a fixed interval after sunset where the
/// parameters give one; else the sun at the Isha angle (or a seventh of the
/// night after sunset, under the Moonsighting Committee's rule), but never
/// after the evening ceiling, which also stands in where the sun never reaches
/// the angle.
pub open spec fn isha_unadjusted(params: Parameters, latitude: int, day: SolarEvents, night: int) -> int {
    if params.isha_interval > 0 {
        day.sunset + 60 * params.isha_interval
    } else {
        let ceiling = evening_ceiling(params, latitude, day, night);
        if seventh_of_night_rule(params, latitude) {
            let t = day.sunset + trunc_div(night, 7);
            if t > ceiling { ceiling } else { t }
        } else {
            match day.dusk {
                Some(t) => if t > ceiling { ceiling } else { t as int },
                None => ceiling,
            }
        }
    }
}

/// The schedule of a day from the solar events of that day and of the next,
/// and the sunrise of the day after: the night runs from sunset to the next
/// sunrise; tomorrow's Fajr follows the same rules on the next day; the middle
/// of the night and Qiyam (its last third) split the time from Maghrib to
/// tomorrow's Fajr, each to the nearest minute.
pub open spec fn times_of(
    coordinates: Coordinates,
    params: Parameters,
    today: SolarEvents,
    tomorrow: SolarEvents,
    sunrise_after_tomorrow: int,
) -> Times {
    let latitude = coordinates.latitude as int;
    let night = tomorrow.sunrise - today.sunset;
    let next_night = sunrise_after_tomorrow - tomorrow.sunset;
    let maghrib = today.sunset + 60 * params.adjustment(Prayer::Maghrib);
    let fajr_tomorrow = fajr_unadjusted(params, latitude, tomorrow, next_night) + 60 * params.adjustment(
        Prayer::Fajr,
    );
    let span = fajr_tomorrow - maghrib;
    Times {
        fajr: fajr_unadjusted(params, latitude, today, night) + 60 * params.adjustment(Prayer::Fajr),
        sunrise: today.sunrise + 60 * params.adjustment(Prayer::Sunrise),
        dhuhr: today.transit + 60 * params.adjustment(Prayer::Dhuhr),
        asr: today.afternoon + 60 * params.adjustment(Prayer::Asr),
        maghrib,
        isha: isha_unadjusted(params, latitude, today, night) + 60 * params.adjustment(Prayer::Isha),
        middle_of_the_night: nearest_minute_of(maghrib + trunc_div(span, 2)),
        qiyam: nearest_minute_of(maghrib + trunc_div(2 * span, 3)),
        fajr_tomorrow,
    }
}

/// The inputs of a schedule are within the library's bounds.
pub open spec fn inputs_valid(
    params: Parameters,
    today: SolarEvents,
    tomorrow: SolarEvents,
    sunrise_after_tomorrow: int,
) -> bool {
    &&& params.wf()
    &&& today.wf()
    &&& tomorrow.wf()
    &&& instant_in_range(sunrise_after_tomorrow)
}

/// Why no schedule was made.
#[derive(PartialEq, Eq, Structural, Debug, Copy, Clone)]
pub enum ScheduleError {
    /// The parameters or the solar events are outside the library's bounds.
    InvalidInput,
    /// The rules gave prayer times that are not in the day's order, as happens
    /// where the sun does not rise or set as the rules expect.
    OutOfOrder,
}

/// The times of all prayers of a day, in seconds since the epoch. The prayers
/// are always in the day's order.
#[derive(Debug, Copy, Clone)]
pub struct PrayerTimes {
    fajr: i64,
    sunrise: i64,
    dhuhr: i64,
    asr: i64,
    maghrib: i64,
    isha: i64,
    middle_of_the_night: i64,
    qiyam: i64,
    fajr_tomorrow: i64,
}

impl View for PrayerTimes {
    type V = Times;

    closed spec fn view(&self) -> Times {
        Times {
            fajr: self.fajr as int,
            sunrise: self.sunrise as int,
            dhuhr: self.dhuhr as int,
            asr: self.asr as int,
            maghrib: self.maghrib as int,
            isha: self.isha as int,
            middle_of_the_night: self.middle_of_the_night as int,
            qiyam: self.qiyam as int,
            fajr_tomorrow: self.fajr_tomorrow as int,
        }
    }
}

/// A bound on the magnitude of every computed instant.
const COMPUTED_LIMIT: i64 = 0x400_0000_0000_0000;

proof fn lemma_share_bound(portion: NightPortion, night: int)
    requires
        portion.denominator > 0,
        -6 * portion.denominator <= portion.numerator <= 6 * portion.denominator,
        -2 * INSTANT_LIMIT <= night <= 2 * INSTANT_LIMIT,
    ensures
        -12 * INSTANT_LIMIT <= share(portion, night) <= 12 * INSTANT_LIMIT,
{
    let d = portion.denominator as int;
    let m = abs(portion.numerator * night);
    assert(m <= (12 * INSTANT_LIMIT) * d) by (nonlinear_arith)
        requires
            m == abs(portion.numerator * night),
            -6 * d <= portion.numerator <= 6 * d,
            -2 * INSTANT_LIMIT <= night <= 2 * INSTANT_LIMIT,
            d > 0,
    ;
    lemma_div_is_ordered(m, (12 * INSTANT_LIMIT) * d, d);
    lemma_div_by_multiple(12 * INSTANT_LIMIT, d);
    assert(abs(share(portion, night)) == m / d);
}

/// `portion` of `night` seconds, rounded toward zero.
fn night_share(portion: NightPortion, night: i64) -> (r: i64)
    requires
        portion.denominator > 0,
        -6 * portion.denominator <= portion.numerator <= 6 * portion.denominator,
        -2 * INSTANT_LIMIT <= night <= 2 * INSTANT_LIMIT,
    ensures
        r == share(portion, night as int),
        -12 * INSTANT_LIMIT <= r <= 12 * INSTANT_LIMIT,
{
    proof {
        lemma_share_bound(portion, night as int);
    }
    let n: i128 = portion.numerator as i128;
    let d: i128 = portion.denominator as i128;
    assert(-0x100_0000_0000_0000_0000_0000_0000_0000 <= n * (night as i128) <= 0x100_0000_0000_0000_0000_0000_0000_0000)
        by (nonlinear_arith)
        requires
            -6 * 0x8000_0000_0000_0000 <= n <= 6 * 0x8000_0000_0000_0000,
            -2 * INSTANT_LIMIT <= night <= 2 * INSTANT_LIMIT,
    ;
    let product: i128 = n * (night as i128);
    let q: i128 = if product >= 0 {
        product / d
    } else {
        let p: i128 = (0 - product) / d;
        0 - p
    };
    q as i64
}

proof fn lemma_portions_bounded(params: Parameters)
    requires
        params.wf(),
    ensures
        params.portions().0.denominator > 0,
        -6 * params.portions().0.denominator <= params.portions().0.numerator <= 6 * params.portions().0.denominator,
        params.portions().1.denominator > 0,
        -6 * params.portions().1.denominator <= params.portions().1.numerator <= 6 * params.portions().1.denominator,
{
}

fn seventh_of_night_applies(params: &Parameters, latitude: i64) -> (r: bool)
    ensures
        r == seventh_of_night_rule(*params, latitude as int),
{
    let lat: i128 = latitude as i128;
    params.method == Method::MoonsightingCommittee && (lat >= 55 * DEGREE as i128 || lat <= -55
        * DEGREE as i128)
}

/// Fajr for one day, with its minute adjustment.
fn calculate_fajr(params: &Parameters, latitude: i64, day: &SolarEvents, night: i64) -> (r: i64)
    requires
        params.wf(),
        day.wf(),
        -2 * INSTANT_LIMIT <= night <= 2 * INSTANT_LIMIT,
    ensures
        r == fajr_unadjusted(*params, latitude as int, *day, night as int) + 60 * params.adjustment(
            Prayer::Fajr,
        ),
        r - 60 * params.adjustment(Prayer::Fajr) >= morning_floor(*params, latitude as int, *day, night as int),
        -COMPUTED_LIMIT <= r <= COMPUTED_LIMIT,
{
    let floor: i64 = if params.method == Method::MoonsightingCommittee {
        season_adjusted_morning_twilight(latitude, day.day_of_year, day.year, day.sunrise)
    } else {
        proof {
            lemma_portions_bounded(*params);
        }
        let portions = params.night_portions();
        day.sunrise - night_share(portions.0, night)
    };
    let fajr: i64 = if seventh_of_night_applies(params, latitude) {
        let t = day.sunrise - truncating_div(night, 7);
        if t < floor {
            floor
        } else {
            t
        }
    } else {
        match day.dawn {
            Some(t) => if t < floor {
                floor
            } else {
                t
            },
            None => floor,
        }
    };
    fajr + 60 * params.time_adjustments(Prayer::Fajr)
}

/// Isha for one day, with its minute adjustment.
fn calculate_isha(params: &Parameters, latitude: i64, day: &SolarEvents, night: i64) -> (r: i64)
    requires
        params.wf(),
        day.wf(),
        -2 * INSTANT_LIMIT <= night <= 2 * INSTANT_LIMIT,
    ensures
        r == isha_unadjusted(*params, latitude as int, *day, night as int) + 60 * params.adjustment(
            Prayer::Isha,
        ),
        params.isha_interval <= 0 ==> r - 60 * params.adjustment(Prayer::Isha) <= evening_ceiling(
            *params,
            latitude as int,
            *day,
            night as int,
        ),
        -COMPUTED_LIMIT <= r <= COMPUTED_LIMIT,
{
    let isha: i64 = if params.isha_interval > 0 {
        day.sunset + 60 * params.isha_interval as i64
    } else {
        let ceiling: i64 = if params.method == Method::MoonsightingCommittee {
            season_adjusted_evening_twilight(latitude, day.day_of_year, day.year, day.sunset)
        } else {
            proof {
                lemma_portions_bounded(*params);
            }
            let portions = params.night_portions();
            day.sunset + night_share(portions.1, night)
        };
        if seventh_of_night_applies(params, latitude) {
            let t = day.sunset + truncating_div(night, 7);
            if t > ceiling {
                ceiling
            } else {
                t
            }
        } else {
            match day.dusk {
                Some(t) => if t > ceiling {
                    ceiling
                } else {
                    t
                },
                None => ceiling,
            }
        }
    };
    isha + 60 * params.time_adjustments(Prayer::Isha)
}

impl PrayerTimes {
    #[verifier::type_invariant]
    spec fn in_order(self) -> bool {
        &&& self@.ordered()
        &&& -COMPUTED_LIMIT <= self.fajr
        &&& self.fajr_tomorrow <= COMPUTED_LIMIT
    }

    /// Builds the schedule of a day from the solar events of the day, those of
    /// the next day, and the sunrise of the day after that.
    ///
    /// Fails with `InvalidInput` exactly where the inputs are outside the
    /// library's bounds, and with `OutOfOrder` exactly where the rules give
    /// prayer times out of the day's order; otherwise the schedule holds the
    /// times that the rules give.
    pub fn new(
        coordinates: Coordinates,
        parameters: Parameters,
        today: SolarEvents,
        tomorrow: SolarEvents,
        sunrise_after_tomorrow: i64,
    ) -> (r: Result<PrayerTimes, ScheduleError>)
        ensures
            match r {
                Ok(s) => inputs_valid(parameters, today, tomorrow, sunrise_after_tomorrow as int)
                    && s@ == times_of(coordinates, parameters, today, tomorrow, sunrise_after_tomorrow as int)
                    && s@.ordered(),
                Err(ScheduleError::InvalidInput) => !inputs_valid(
                    parameters,
                    today,
                    tomorrow,
                    sunrise_after_tomorrow as int,
                ),
                Err(ScheduleError::OutOfOrder) => inputs_valid(
                    parameters,
                    today,
                    tomorrow,
                    sunrise_after_tomorrow as int,
                ) && !times_of(coordinates, parameters, today, tomorrow, sunrise_after_tomorrow as int).ordered(),
            },
    {
        if !(parameters.is_valid() && today.is_valid() && tomorrow.is_valid() && -INSTANT_LIMIT
            <= sunrise_after_tomorrow && sunrise_after_tomorrow <= INSTANT_LIMIT) {
            return Err(ScheduleError::InvalidInput);
        }
        let latitude = coordinates.latitude;
        let night = tomorrow.sunrise - today.sunset;
        let next_night = sunrise_after_tomorrow - tomorrow.sunset;

        let fajr = calculate_fajr(&parameters, latitude, &today, night);
        let sunrise = today.sunrise + 60 * parameters.time_adjustments(Prayer::Sunrise);
        let dhuhr = today.transit + 60 * parameters.time_adjustments(Prayer::Dhuhr);
        let asr = today.afternoon + 60 * parameters.time_adjustments(Prayer::Asr);
        let maghrib = today.sunset + 60 * parameters.time_adjustments(Prayer::Maghrib);
        let isha = calculate_isha(&parameters, latitude, &today, night);

        let fajr_tomorrow = calculate_fajr(&parameters, latitude, &tomorrow, next_night);
        let span = fajr_tomorrow - maghrib;
        let middle_of_the_night = nearest_minute(maghrib + truncating_div(span, 2));
        let qiyam = nearest_minute(maghrib + truncating_div(2 * span, 3));

        if !(fajr < sunrise && sunrise < dhuhr && dhuhr < asr && asr < maghrib && maghrib < isha && isha
            < qiyam && qiyam < fajr_tomorrow) {
            return Err(ScheduleError::OutOfOrder);
        }
        Ok(
            PrayerTimes {
                fajr,
                sunrise,
                dhuhr,
                asr,
                maghrib,
                isha,
                middle_of_the_night,
                qiyam,
                fajr_tomorrow,
            },
        )
    }

    /// The time of a prayer.
    pub fn time(&self, prayer: Prayer) -> (r: i64)
        ensures
            r == self@.at(prayer),
    {
        match prayer {
            Prayer::Fajr => self.fajr,
            Prayer::Sunrise => self.sunrise,
            Prayer::Dhuhr => self.dhuhr,
            Prayer::Asr => self.asr,
            Prayer::Maghrib => self.maghrib,
            Prayer::Isha => self.isha,
            Prayer::Qiyam => self.qiyam,
            Prayer::FajrTomorrow => self.fajr_tomorrow,
        }
    }

    /// The middle of the night, between Maghrib and tomorrow's Fajr.
    pub fn middle_of_the_night(&self) -> (r: i64)
        ensures
            r == self@.middle_of_the_night,
    {
        self.middle_of_the_night
    }

    /// The prayer active at an instant: the last one whose time has come.
    /// Instants before Fajr, and from tomorrow's Fajr on, belong to another
    /// day's schedule and give none.
    pub fn prayer_at(&self, time: i64) -> (r: Option<Prayer>)
        ensures
            r == self@.active(time as int),
    {
        if time >= self.fajr_tomorrow {
            None
        } else if time >= self.qiyam {
            Some(Prayer::Qiyam)
        } else if time >= self.isha {
            Some(Prayer::Isha)
        } else if time >= self.maghrib {
            Some(Prayer::Maghrib)
        } else if time >= self.asr {
            Some(Prayer::Asr)
        } else if time >= self.dhuhr {
            Some(Prayer::Dhuhr)
        } else if time >= self.sunrise {
            Some(Prayer::Sunrise)
        } else if time >= self.fajr {
            Some(Prayer::Fajr)
        } else {
            None
        }
    }

    /// The prayer active now.
    pub fn current(&self, now: i64) -> (r: Option<Prayer>)
        ensures
            r == self@.active(now as int),
    {
        self.prayer_at(now)
    }

    /// The prayer that follows the one active now.
    pub fn next(&self, now: i64) -> (r: Option<Prayer>)
        ensures
            r == match self@.active(now as int) {
                Some(p) => Some(p.successor()),
                None => None,
            },
    {
        match self.prayer_at(now) {
            Some(p) => Some(p.following()),
            None => None,
        }
    }

    /// The whole hours, and the remaining minutes rounded to the nearest, from
    /// now to the next prayer; none where no prayer is active now. Hours beyond
    /// `u32::MAX` are given as `u32::MAX`.
    pub fn time_remaining(&self, now: i64) -> (r: Option<(u32, u32)>)
        ensures
            match self@.active(now as int) {
                Some(p) => {
                    let seconds = self@.at(p.successor()) - now;
                    &&& seconds > 0
                    &&& r == Some(
                        (
                            (if seconds / 3600 > u32::MAX { u32::MAX as int } else { seconds / 3600 }) as u32,
                            nearest(seconds % 3600, 60) as u32,
                        ),
                    )
                },
                None => r is None,
            },
    {
        proof {
            use_type_invariant(self);
        }
        match self.next(now) {
            Some(p) => {
                let seconds: i64 = self.time(p) - now;
                let whole: i64 = seconds / 3600;
                let hours: u32 = if whole > u32::MAX as i64 {
                    u32::MAX
                } else {
                    whole as u32
                };
                let rest: i64 = seconds % 3600;
                let minutes: u32 = ((2 * rest + 60) / 120) as u32;
                Some((hours, minutes))
            },
            None => None,
        }
    }
}

/// Every instant from Fajr up to tomorrow's Fajr has exactly one active prayer:
/// the one whose time has come and whose successor's has not; instants from
/// tomorrow's Fajr on have none.
pub proof fn lemma_prayer_at_covers_day(times: Times, t: int)
    requires
        times.ordered(),
    ensures
        times.fajr <= t < times.fajr_tomorrow ==> {
            &&& times.active(t) is Some
            &&& times.active(t)->Some_0 != Prayer::FajrTomorrow
            &&& times.at(times.active(t)->Some_0) <= t < times.at(times.active(t)->Some_0.successor())
            &&& forall|p: Prayer|
                p != Prayer::FajrTomorrow && #[trigger] times.at(p) <= t < times.at(p.successor()) ==> p
                    == times.active(t)->Some_0
        },
        t >= times.fajr_tomorrow ==> times.active(t) is None,
{
}

/// The safety bounds: before its minute adjustment, Fajr is never earlier than
/// the morning floor, and an Isha taken from the sun (no fixed interval) is
/// never later than the evening ceiling.
pub proof fn lemma_safety_bounds(params: Parameters, latitude: int, day: SolarEvents, night: int)
    ensures
        fajr_unadjusted(params, latitude, day, night) >= morning_floor(params, latitude, day, night),
        params.isha_interval <= 0 ==> isha_unadjusted(params, latitude, day, night) <= evening_ceiling(
            params,
            latitude,
            day,
            night,
        ),
{
}

/// The safety bounds of a computed schedule: today's Fajr and tomorrow's, less
/// their minute adjustment, are never earlier than the morning floor of their
/// day, and today's Isha, less its adjustment, is never later than the evening
/// ceiling where no fixed interval is used.
pub proof fn lemma_schedule_safety_bounds(
    coordinates: Coordinates,
    params: Parameters,
    today: SolarEvents,
    tomorrow: SolarEvents,
    sunrise_after_tomorrow: int,
)
    ensures
        ({
            let times = times_of(coordinates, params, today, tomorrow, sunrise_after_tomorrow);
            let latitude = coordinates.latitude as int;
            let night = tomorrow.sunrise - today.sunset;
            let next_night = sunrise_after_tomorrow - tomorrow.sunset;
            &&& times.fajr - 60 * params.adjustment(Prayer::Fajr) >= morning_floor(params, latitude, today, night)
            &&& times.fajr_tomorrow - 60 * params.adjustment(Prayer::Fajr) >= morning_floor(
                params,
                latitude,
                tomorrow,
                next_night,
            )
            &&& params.isha_interval <= 0 ==> times.isha - 60 * params.adjustment(Prayer::Isha)
                <= evening_ceiling(params, latitude, today, night)
        }),
{
    let latitude = coordinates.latitude as int;
    lemma_safety_bounds(params, latitude, today, tomorrow.sunrise - today.sunset);
    lemma_safety_bounds(params, latitude, tomorrow, sunrise_after_tomorrow - tomorrow.sunset);
}

} // verus!
