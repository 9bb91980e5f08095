use salah::ops::{
    adjust_time, days_since_solstice, is_leap_year, julian_day_number, nearest_minute,
    season_adjusted_evening_twilight, season_adjusted_morning_twilight, truncating_div,
};
use salah::solar::time_of_day;
use salah::unit::DEGREE;

#[test]
fn leap_years() {
    assert!(is_leap_year(2000));
    assert!(is_leap_year(2400));
    assert!(!is_leap_year(1900));
    assert!(!is_leap_year(2100));
    assert!(is_leap_year(2004));
    assert!(is_leap_year(2024));
    assert!(!is_leap_year(2023));
}

#[test]
fn calculate_julian_day() {
    let jd = julian_day_number(1992, 10, 13) as f64 - 0.5;
    assert_eq!(jd, 2448908.5);
}

#[test]
fn julian_day_of_the_epochs() {
    // 2000-01-01 at noon is JD 2451545.
    assert_eq!(julian_day_number(2000, 1, 1), 2451545);
    // 1970-01-01.
    assert_eq!(julian_day_number(1970, 1, 1), 2440588);
    // February counts as a month of the year before.
    assert_eq!(julian_day_number(2016, 2, 29) + 1, julian_day_number(2016, 3, 1));
    // Truncation toward zero before year zero.
    assert_eq!(julian_day_number(-4712, 1, 1), 38);
}

#[test]
fn days_since_solstice_northern() {
    assert_eq!(days_since_solstice(1, 2016, 599_094_000), 11);
    assert_eq!(days_since_solstice(355, 2015, 0), 0);
    assert_eq!(days_since_solstice(365, 2015, 10), 10);
    assert_eq!(days_since_solstice(356, 2016, 10), 0);
    assert_eq!(days_since_solstice(366, 2016, 10), 10);
}

#[test]
fn days_since_solstice_southern() {
    assert_eq!(days_since_solstice(172, 2015, -1), 0);
    assert_eq!(days_since_solstice(173, 2016, -1), 0);
    assert_eq!(days_since_solstice(1, 2015, -338_688_000), 194);
    assert_eq!(days_since_solstice(365, 2015, -1), 193);
}

#[test]
fn seasonal_morning_twilight_oslo() {
    // Oslo, 2016-01-01, sunrise 08:19 UTC: 104.994 minutes rounds to 105.
    let sunrise = 1451636340;
    assert_eq!(season_adjusted_morning_twilight(599_094_000, 1, 2016, sunrise), sunrise - 6300);
}

#[test]
fn seasonal_evening_twilight_oslo() {
    // Oslo, 2016-01-01, sunset 14:22 UTC: 99.784 minutes rounds to 100, 16:02.
    let sunset = 1451658120;
    assert_eq!(season_adjusted_evening_twilight(599_094_000, 1, 2016, sunset), 1451664120);
}

#[test]
fn seasonal_twilight_at_the_equator_is_75_minutes() {
    for day in [1, 100, 200, 300, 365] {
        assert_eq!(season_adjusted_morning_twilight(0, day, 2015, 0), -4500);
        assert_eq!(season_adjusted_evening_twilight(0, day, 2015, 0), 4500);
    }
}

#[test]
fn seasonal_twilight_bands() {
    // 55 degrees north; morning coefficients 103.65, 94.44, 107.74, 123.10 min.
    let lat = 55 * DEGREE;
    // Day 355 + 10 wraps to 0: coefficient a.
    assert_eq!(season_adjusted_morning_twilight(lat, 355, 2015, 0), -104 * 60);
    // Day 81 is 91 days on: coefficient b.
    assert_eq!(season_adjusted_morning_twilight(lat, 81, 2015, 0), -94 * 60);
    // Day 127 is 137 days on: coefficient c.
    assert_eq!(season_adjusted_morning_twilight(lat, 127, 2015, 0), -108 * 60);
    // Day 173 is 183 days on: coefficient d.
    assert_eq!(season_adjusted_morning_twilight(lat, 173, 2015, 0), -123 * 60);
    // Southern hemisphere counts from the June solstice.
    assert_eq!(season_adjusted_morning_twilight(-lat, 172, 2015, 0), -104 * 60);
}

#[test]
fn seasonal_twilight_rounds_once_to_whole_minutes() {
    // 10 degrees north at the solstice: 80.21 minutes is 80 minutes.
    assert_eq!(season_adjusted_morning_twilight(10 * DEGREE, 355, 2015, 0), -4800);
    // 1.06 degrees north: 75.49 minutes is 75 minutes, not 76.
    assert_eq!(season_adjusted_evening_twilight(10_600_000, 355, 2015, 0), 4500);
    // Whole minutes from an instant with seconds keep its seconds.
    assert_eq!(season_adjusted_evening_twilight(0, 1, 2015, 17), 4517);
}

#[test]
fn calculate_nearest_minute() {
    // 2015-07-13 04:37:30 rounds up, 04:37:29 rounds down.
    assert_eq!(nearest_minute(1436762250), 1436762280);
    assert_eq!(nearest_minute(1436762249), 1436762220);
    assert_eq!(nearest_minute(-30), 0);
    assert_eq!(nearest_minute(-31), -60);
}

#[test]
fn adjust_time_by_minutes() {
    assert_eq!(adjust_time(1436690520, 2), 1436690640);
    assert_eq!(adjust_time(1436690520, -3), 1436690340);
}

#[test]
fn truncating_division() {
    assert_eq!(truncating_div(7, 2), 3);
    assert_eq!(truncating_div(-7, 2), -3);
}

#[test]
fn time_of_day_rounds_to_the_minute() {
    let midnight = 1436659200; // 2015-07-12
    assert_eq!(time_of_day(midnight, 8, 41, 30), midnight + 8 * 3600 + 42 * 60);
    assert_eq!(time_of_day(midnight, 8, 41, 29), midnight + 8 * 3600 + 41 * 60);
    // Past midnight falls on the next date, before it on the date before.
    assert_eq!(time_of_day(midnight, 24, 32, 0), midnight + 86_400 + 32 * 60);
    assert_eq!(time_of_day(midnight, -1, 59, 59), midnight);
}
