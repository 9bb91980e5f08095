//! Calendar and time-of-day arithmetic used by the solar computations, and the
//! seasonal twilight model of the Moonsighting Committee.
use vstd::arithmetic::div_mod::{lemma_div_is_ordered, lemma_div_is_ordered_by_denominator};
use vstd::prelude::*;

verus! {

/// The largest magnitude of an instant, in seconds from 1970-01-01T00:00:00Z,
/// that the schedule arithmetic accepts (about three million years).
pub const INSTANT_LIMIT: i64 = 100_000_000_000_000;

pub open spec fn instant_in_range(t: int) -> bool {
    -INSTANT_LIMIT <= t <= INSTANT_LIMIT
}

/// The instant rounded to the nearest whole minute, half a minute rounding up.
pub open spec fn nearest_minute_of(t: int) -> int {
    if t % 60 >= 30 {
        t - t % 60 + 60
    } else {
        t - t % 60
    }
}

/// Rounds an instant to the nearest whole minute; 30 seconds and more round
/// up.
pub fn nearest_minute(t: i64) -> (r: i64)
    requires
        i64::MIN + 60 <= t <= i64::MAX - 60,
    ensures
        r == nearest_minute_of(t as int),
        r % 60 == 0,
        t - 30 < r <= t + 30,
{
    let rem: i64 = if t >= 0 {
        t % 60
    } else {
        let back: i64 = (0 - (t + 1)) % 60;
        59 - back
    };
    assert(rem == t % 60) by {
        if t < 0 {
            assert((0 - (t + 1)) % 60 + (t as int) % 60 == 59) by (nonlinear_arith)
                requires
                    t < 0,
            ;
        }
    }
    if rem >= 30 {
        t - rem + 60
    } else {
        t - rem
    }
}

/// Shifts an instant by a number of minutes.
pub fn adjust_time(date: i64, minutes: i64) -> (r: i64)
    requires
        instant_in_range(date as int),
        -INSTANT_LIMIT <= minutes <= INSTANT_LIMIT,
    ensures
        r == date + 60 * minutes,
{
    date + 60 * minutes
}

/// Gregorian leap year rule.
pub open spec fn leap_year(year: int) -> bool {
    year % 4 == 0 && (year % 100 != 0 || year % 400 == 0)
}

pub open spec fn days_in_year(year: int) -> int {
    if leap_year(year) {
        366
    } else {
        365
    }
}

/// Division of `a` by a positive `b`, rounded toward zero.
pub open spec fn trunc_div(a: int, b: int) -> int {
    if a >= 0 {
        a / b
    } else {
        -((-a) / b)
    }
}

/// `n / d` for a positive `d`, rounded to the nearest integer, halves away
/// from zero.
pub open spec fn nearest(n: int, d: int) -> int {
    if n >= 0 {
        (2 * n + d) / (2 * d)
    } else {
        -((-2 * n + d) / (2 * d))
    }
}

/// Division of `a` by a positive `b`, rounded toward zero.
pub fn truncating_div(a: i64, b: i64) -> (r: i64)
    requires
        b > 0,
        a > i64::MIN,
    ensures
        r == trunc_div(a as int, b as int),
{
    if a >= 0 {
        a / b
    } else {
        let q: i64 = (0 - a) / b;
        0 - q
    }
}

/// Checks if the given year is a leap year.
pub fn is_leap_year(year: u32) -> (r: bool)
    ensures
        r == leap_year(year as int),
{
    if year % 4 != 0 {
        return false;
    }
    if year % 100 == 0 && year % 400 != 0 {
        return false;
    }
    true
}

/// The Julian Day Number of a Gregorian date (Astronomical Algorithms, p. 60),
/// with the intermediate terms truncated toward zero as the algorithm does:
/// January and February count as months 13 and 14 of the year before,
/// `a = y / 100`, `b = 2 - a + a / 4`, and the result is
/// `trunc(365.25 (y + 4716)) + trunc(30.6001 (m + 1)) + day + b - 1524`.
pub open spec fn julian_day_number_of(year: int, month: int, day: int) -> int {
    let y = if month > 2 { year } else { year - 1 };
    let m = if month > 2 { month } else { month + 12 };
    let a = trunc_div(y, 100);
    let b = 2 - a + trunc_div(a, 4);
    trunc_div(1461 * (y + 4716), 4) + (306001 * (m + 1)) / 10000 + day + b - 1524
}

/// The Julian Day Number of a Gregorian date: the Julian day at noon of that
/// date. The Julian day at `h` hours UTC is `julian_day_number - 0.5 + h / 24`.
pub fn julian_day_number(year: i32, month: i32, day: i32) -> (r: i64)
    requires
        1 <= month <= 12,
    ensures
        r == julian_day_number_of(year as int, month as int, day as int),
{
    let y: i64 = if month > 2 { year as i64 } else { year as i64 - 1 };
    let m: i64 = if month > 2 { month as i64 } else { month as i64 + 12 };
    let a: i64 = if y >= 0 { y / 100 } else { -((-y) / 100) };
    let b: i64 = 2 - a + if a >= 0 { a / 4 } else { -((-a) / 4) };
    let n: i64 = 1461 * (y + 4716);
    let i0: i64 = if n >= 0 { n / 4 } else { -((-n) / 4) };
    let i1: i64 = (306001 * (m + 1)) / 10000;
    i0 + i1 + day as i64 + b - 1524
}

/// Days since the solstice that opens the seasonal cycle at a latitude: ten
/// days before the new year in the northern hemisphere, the June solstice
/// (day 172, or 173 in a leap year) in the southern one; wrapped into
/// `[0, days_in_year)`.
pub open spec fn solstice_days(day_of_year: int, year: int, latitude: int) -> int {
    if latitude >= 0 {
        let lapsed = day_of_year + 10;
        if lapsed >= days_in_year(year) {
            lapsed - days_in_year(year)
        } else {
            lapsed
        }
    } else {
        let lapsed = day_of_year - if leap_year(year) { 173int } else { 172int };
        if lapsed < 0 {
            lapsed + days_in_year(year)
        } else {
            lapsed
        }
    }
}

/// Solstice calculation to determine a date's seasonal progression, for the
/// Moonsighting Committee method. `latitude` is in ten-millionths of a degree.
pub fn days_since_solstice(day_of_year: u32, year: u32, latitude: i64) -> (r: u32)
    requires
        1 <= day_of_year <= days_in_year(year as int),
    ensures
        r == solstice_days(day_of_year as int, year as int, latitude as int),
        r < days_in_year(year as int),
{
    let leap = is_leap_year(year);
    let days_in_year: u32 = if leap { 366 } else { 365 };
    if latitude >= 0 {
        let lapsed = day_of_year + 10;
        if lapsed >= days_in_year {
            lapsed - days_in_year
        } else {
            lapsed
        }
    } else {
        let southern_offset: u32 = if leap { 173 } else { 172 };
        if day_of_year < southern_offset {
            day_of_year + days_in_year - southern_offset
        } else {
            day_of_year - southern_offset
        }
    }
}

/// Whether a seasonal twilight adjustment is taken before sunrise or after
/// sunset.
#[derive(PartialEq, Eq, Structural, Debug, Copy, Clone)]
pub enum Daytime {
    Morning,
    Evening,
}

/// The denominator of a twilight coefficient: a coefficient `n` stands for
/// `n / TWILIGHT_SCALE` minutes. It is 55 degrees times 100, in the unit of
/// [`crate::unit::DEGREE`].
pub const TWILIGHT_SCALE: i128 = 55_000_000_000;

/// The four per-degree slopes of the seasonal model, in hundredths of a minute
/// per 55 degrees of latitude.
pub open spec fn twilight_slopes(daytime: Daytime) -> (int, int, int, int) {
    match daytime {
        Daytime::Morning => (2865, 1944, 3274, 4810),
        Daytime::Evening => (2560, 205, -921, 614),
    }
}

pub open spec fn abs(x: int) -> int {
    if x >= 0 {
        x
    } else {
        -x
    }
}

/// `75 + slope / 100 / 55 * |latitude|` minutes, scaled by `TWILIGHT_SCALE`.
pub open spec fn twilight_coefficient(slope: int, latitude: int) -> int {
    75 * TWILIGHT_SCALE + slope * abs(latitude)
}

/// Linear interpolation from `from` to `to` over `width` days, at `x` days
/// in, as a numerator over `width * TWILIGHT_SCALE` minutes.
pub open spec fn twilight_step(from: int, to: int, width: int, x: int) -> (int, int) {
    (from * width + (to - from) * x, width * TWILIGHT_SCALE)
}

/// The seasonal twilight adjustment in minutes, as a numerator and a
/// denominator: the coefficients `a`, `b`, `c`, `d` are joined piecewise
/// linearly over the six bands of days since the solstice
/// (0-90, 91-136, 137-182, 183-228, 229-274, 275 on), from `a` to `b`, `c`,
/// `d` and back through `c` and `b` toward `a`.
pub open spec fn twilight_adjustment(daytime: Daytime, latitude: int, dyy: int) -> (int, int) {
    let (sa, sb, sc, sd) = twilight_slopes(daytime);
    let a = twilight_coefficient(sa, latitude);
    let b = twilight_coefficient(sb, latitude);
    let c = twilight_coefficient(sc, latitude);
    let d = twilight_coefficient(sd, latitude);
    if 0 <= dyy <= 90 {
        twilight_step(a, b, 91, dyy)
    } else if 91 <= dyy <= 136 {
        twilight_step(b, c, 46, dyy - 91)
    } else if 137 <= dyy <= 182 {
        twilight_step(c, d, 46, dyy - 137)
    } else if 183 <= dyy <= 228 {
        twilight_step(d, c, 46, dyy - 183)
    } else if 229 <= dyy <= 274 {
        twilight_step(c, b, 46, dyy - 229)
    } else {
        twilight_step(b, a, 91, dyy - 275)
    }
}

/// The seasonal twilight adjustment rounded to the nearest whole minute.
pub open spec fn twilight_minutes(daytime: Daytime, latitude: int, day_of_year: int, year: int) -> int {
    let (n, d) = twilight_adjustment(daytime, latitude, solstice_days(day_of_year, year, latitude));
    nearest(n, d)
}

/// `n / d` rounded to the nearest integer, halves away from zero.
fn round_div(n: i128, d: i128) -> (r: i128)
    requires
        0x200_0000_0000 <= d <= 0x800_0000_0000,
        -0x800_0000_0000_0000_0000_0000 <= n <= 0x800_0000_0000_0000_0000_0000,
    ensures
        r == nearest(n as int, d as int),
        -0x4_0000_0000_0002 <= r <= 0x4_0000_0000_0002,
{
    proof {
        let m: int = if n >= 0 { 2 * n + d } else { d - 2 * n };
        lemma_div_is_ordered_by_denominator(m, 0x400_0000_0000int, 2 * d);
        lemma_div_is_ordered(m, 0x1000_0000_0000_0000_0000_0000int + 0x800_0000_0000int, 0x400_0000_0000int);
    }
    if n >= 0 {
        (2 * n + d) / (2 * d)
    } else {
        let q: i128 = (d - 2 * n) / (2 * d);
        0 - q
    }
}

proof fn lemma_slope_product(s: int, l: int)
    requires
        -5000 <= s <= 5000,
        0 <= l <= 0x8000_0000_0000_0000,
    ensures
        -0x1_0000_0000_0000_0000_0000 <= s * l <= 0x1_0000_0000_0000_0000_0000,
{
    assert(-0x1_0000_0000_0000_0000_0000 <= s * l <= 0x1_0000_0000_0000_0000_0000) by (nonlinear_arith)
        requires
            -5000 <= s <= 5000,
            0 <= l <= 0x8000_0000_0000_0000,
    ;
}

/// The seasonal twilight adjustment in minutes, before rounding.
fn twilight_adjustments(daytime: Daytime, latitude: i64, dyy: u32) -> (r: (i128, i128))
    requires
        dyy <= 366,
    ensures
        r.0 == twilight_adjustment(daytime, latitude as int, dyy as int).0,
        r.1 == twilight_adjustment(daytime, latitude as int, dyy as int).1,
        r.1 > 0,
        -0x400_0000_0000_0000_0000_0000 <= r.0 <= 0x400_0000_0000_0000_0000_0000,
        46 * TWILIGHT_SCALE <= r.1 <= 91 * TWILIGHT_SCALE,
{
    let lat: i128 = latitude as i128;
    let l: i128 = if lat >= 0 { lat } else { -lat };
    assert(0 <= l <= 0x8000_0000_0000_0000);
    let (sa, sb, sc, sd): (i128, i128, i128, i128) = match daytime {
        Daytime::Morning => (2865, 1944, 3274, 4810),
        Daytime::Evening => (2560, 205, -921, 614),
    };
    proof {
        lemma_slope_product(sa as int, l as int);
        lemma_slope_product(sb as int, l as int);
        lemma_slope_product(sc as int, l as int);
        lemma_slope_product(sd as int, l as int);
    }
    let a: i128 = 75 * TWILIGHT_SCALE + sa * l;
    let b: i128 = 75 * TWILIGHT_SCALE + sb * l;
    let c: i128 = 75 * TWILIGHT_SCALE + sc * l;
    let d: i128 = 75 * TWILIGHT_SCALE + sd * l;
    let x: i128 = dyy as i128;
    let (from, to, width, start): (i128, i128, i128, i128) = if dyy <= 90 {
        (a, b, 91, 0)
    } else if dyy <= 136 {
        (b, c, 46, 91)
    } else if dyy <= 182 {
        (c, d, 46, 137)
    } else if dyy <= 228 {
        (d, c, 46, 183)
    } else if dyy <= 274 {
        (c, b, 46, 229)
    } else {
        (b, a, 91, 275)
    };
    let k: i128 = x - start;
    let delta: i128 = to - from;
    assert(-0x4_0000_0000_0000_0000_0000 <= delta <= 0x4_0000_0000_0000_0000_0000);
    assert(0 <= k <= 91);
    assert(-0x100_0000_0000_0000_0000_0000 <= from * width <= 0x100_0000_0000_0000_0000_0000)
        by (nonlinear_arith)
        requires
            -0x2_0000_0000_0000_0000_0000 <= from <= 0x2_0000_0000_0000_0000_0000,
            0 <= width <= 91;
    assert(-0x200_0000_0000_0000_0000_0000 <= delta * k <= 0x200_0000_0000_0000_0000_0000)
        by (nonlinear_arith)
        requires
            -0x4_0000_0000_0000_0000_0000 <= delta <= 0x4_0000_0000_0000_0000_0000,
            0 <= k <= 91;
    (from * width + delta * k, width * TWILIGHT_SCALE)
}

/// Twilight adjustment based on observational data, for the Moonsighting
/// Committee method: sunrise moved earlier by the seasonal morning adjustment,
/// rounded to the nearest whole minute. `latitude` is in ten-millionths of a
/// degree.
pub fn season_adjusted_morning_twilight(latitude: i64, day: u32, year: u32, sunrise: i64) -> (r: i64)
    requires
        1 <= day <= days_in_year(year as int),
        instant_in_range(sunrise as int),
    ensures
        r == sunrise - 60 * twilight_minutes(Daytime::Morning, latitude as int, day as int, year as int),
        -0x200_0000_0000_0000 <= r <= 0x200_0000_0000_0000,
{
    let dyy = days_since_solstice(day, year, latitude);
    let (n, d) = twilight_adjustments(Daytime::Morning, latitude, dyy);
    let minutes = round_div(n, d);
    sunrise - 60 * minutes as i64
}

/// Twilight adjustment based on observational data, for the Moonsighting
/// Committee method: sunset moved later by the seasonal evening adjustment,
/// rounded to the nearest whole minute. `latitude` is in ten-millionths of a
/// degree.
pub fn season_adjusted_evening_twilight(latitude: i64, day: u32, year: u32, sunset: i64) -> (r: i64)
    requires
        1 <= day <= days_in_year(year as int),
        instant_in_range(sunset as int),
    ensures
        r == sunset + 60 * twilight_minutes(Daytime::Evening, latitude as int, day as int, year as int),
        -0x200_0000_0000_0000 <= r <= 0x200_0000_0000_0000,
{
    let dyy = days_since_solstice(day, year, latitude);
    let (n, d) = twilight_adjustments(Daytime::Evening, latitude, dyy);
    let minutes = round_div(n, d);
    sunset + 60 * minutes as i64
}

} // verus!
