use chrono::DateTime;
use salah::adjustments::TimeAdjustment;
use salah::madhab::Madhab;
use salah::method::Method;
use salah::parameters::Configuration;
use salah::prayer::Prayer;
use salah::schedule::{PrayerTimes, ScheduleError};
use salah::solar::SolarEvents;
use salah::unit::Coordinates;

fn events(
    year: u32,
    day_of_year: u32,
    transit: i64,
    sunrise: i64,
    sunset: i64,
    afternoon: i64,
    dawn: Option<i64>,
    dusk: Option<i64>,
) -> SolarEvents {
    SolarEvents { year, day_of_year, transit, sunrise, sunset, afternoon, dawn, dusk }
}

fn clock(t: i64) -> String {
    DateTime::from_timestamp(t, 0).unwrap().format("%-l:%M %p").to_string()
}

fn utc(year: i32, month: u32, day: u32, hour: u32, minute: u32) -> i64 {
    chrono::NaiveDate::from_ymd_opt(year, month, day)
        .unwrap()
        .and_hms_opt(hour, minute, 0)
        .unwrap()
        .and_utc()
        .timestamp()
}

fn raleigh() -> Coordinates {
    Coordinates::new(357_750_000, -786_336_000)
}

// The solar events of Raleigh, NC on 2015-07-12, 13 and 14, for twilight
// angles of 15 degrees and the Hanafi shadow.
fn raleigh_summer(params: salah::parameters::Parameters) -> Result<PrayerTimes, ScheduleError> {
    let today = events(2015, 193, 1436721600, 1436695680, 1436747520, 1436739720, Some(1436690520), Some(1436752620));
    let tomorrow = events(2015, 194, 1436808000, 1436782080, 1436833920, 1436826120, Some(1436776980), Some(1436839020));
    PrayerTimes::new(raleigh(), params, today, tomorrow, 1436868540)
}

fn raleigh_schedule() -> PrayerTimes {
    raleigh_summer(Configuration::with(Method::NorthAmerica, Madhab::Hanafi)).unwrap()
}

#[test]
fn calculate_prayer_times() {
    let schedule = raleigh_schedule();

    assert_eq!(clock(schedule.time(Prayer::Fajr)), "8:42 AM");
    assert_eq!(clock(schedule.time(Prayer::Sunrise)), "10:08 AM");
    assert_eq!(clock(schedule.time(Prayer::Dhuhr)), "5:21 PM");
    assert_eq!(clock(schedule.time(Prayer::Asr)), "10:22 PM");
    assert_eq!(clock(schedule.time(Prayer::Maghrib)), "12:32 AM");
    assert_eq!(clock(schedule.time(Prayer::Isha)), "1:57 AM");
}

#[test]
fn calculate_qiyam_times() {
    let schedule = raleigh_schedule();

    assert_eq!(clock(schedule.time(Prayer::Maghrib)), "12:32 AM");
    assert_eq!(clock(schedule.time(Prayer::Qiyam)), "5:59 AM");
    assert_eq!(clock(schedule.time(Prayer::FajrTomorrow)), "8:43 AM");
}

#[test]
fn middle_of_the_night_splits_maghrib_to_fajr() {
    let schedule = raleigh_schedule();
    // Maghrib 00:32, tomorrow's Fajr 08:43: half of 8:11 is 4:05:30.
    assert_eq!(schedule.middle_of_the_night(), utc(2015, 7, 13, 4, 38));
}

#[test]
fn current_prayer_should_be_fajr() {
    let times = raleigh_schedule();
    assert_eq!(times.prayer_at(utc(2015, 7, 12, 9, 0)), Some(Prayer::Fajr));
}

#[test]
fn current_prayer_should_be_sunrise() {
    let times = raleigh_schedule();
    assert_eq!(times.prayer_at(utc(2015, 7, 12, 11, 0)), Some(Prayer::Sunrise));
}

#[test]
fn current_prayer_should_be_dhuhr() {
    let times = raleigh_schedule();
    assert_eq!(times.prayer_at(utc(2015, 7, 12, 19, 0)), Some(Prayer::Dhuhr));
}

#[test]
fn current_prayer_should_be_asr() {
    let times = raleigh_schedule();
    assert_eq!(times.prayer_at(utc(2015, 7, 12, 22, 26)), Some(Prayer::Asr));
}

#[test]
fn current_prayer_should_be_maghrib() {
    let times = raleigh_schedule();
    assert_eq!(times.prayer_at(utc(2015, 7, 13, 1, 0)), Some(Prayer::Maghrib));
}

#[test]
fn current_prayer_should_be_isha() {
    let times = raleigh_schedule();
    assert_eq!(times.prayer_at(utc(2015, 7, 13, 2, 0)), Some(Prayer::Isha));
}

#[test]
fn current_prayer_should_be_none() {
    let times = raleigh_schedule();
    assert_eq!(times.prayer_at(utc(2015, 7, 12, 8, 0)), None);
}

#[test]
fn prayer_at_boundaries_belong_to_the_later_prayer() {
    let times = raleigh_schedule();
    assert_eq!(times.prayer_at(times.time(Prayer::Fajr)), Some(Prayer::Fajr));
    assert_eq!(times.prayer_at(times.time(Prayer::Sunrise) - 1), Some(Prayer::Fajr));
    assert_eq!(times.prayer_at(times.time(Prayer::Sunrise)), Some(Prayer::Sunrise));
    assert_eq!(times.prayer_at(times.time(Prayer::Qiyam)), Some(Prayer::Qiyam));
    assert_eq!(times.prayer_at(times.time(Prayer::FajrTomorrow) - 1), Some(Prayer::Qiyam));
    assert_eq!(times.prayer_at(times.time(Prayer::FajrTomorrow)), None);
    assert_eq!(times.prayer_at(times.time(Prayer::FajrTomorrow) + 86_400), None);
}

#[test]
fn prayer_at_covers_the_whole_day_in_order() {
    let times = raleigh_schedule();
    let order = [
        Prayer::Fajr,
        Prayer::Sunrise,
        Prayer::Dhuhr,
        Prayer::Asr,
        Prayer::Maghrib,
        Prayer::Isha,
        Prayer::Qiyam,
        Prayer::FajrTomorrow,
    ];
    for w in order.windows(2) {
        assert!(times.time(w[0]) < times.time(w[1]));
    }
    let mut t = times.time(Prayer::Fajr);
    while t < times.time(Prayer::FajrTomorrow) {
        let p = times.prayer_at(t).unwrap();
        assert!(times.time(p) <= t && t < times.time(times.next(t).unwrap()));
        t += 97;
    }
}

#[test]
fn next_prayer_follows_current() {
    let times = raleigh_schedule();
    assert_eq!(times.current(utc(2015, 7, 12, 9, 0)), Some(Prayer::Fajr));
    assert_eq!(times.next(utc(2015, 7, 12, 9, 0)), Some(Prayer::Sunrise));
    assert_eq!(times.next(utc(2015, 7, 13, 7, 0)), Some(Prayer::FajrTomorrow));
    assert_eq!(times.next(utc(2015, 7, 12, 8, 0)), None);
}

#[test]
fn time_remaining_to_next_prayer() {
    let times = raleigh_schedule();
    // 09:00 to sunrise at 10:08.
    assert_eq!(times.time_remaining(utc(2015, 7, 12, 9, 0)), Some((1, 8)));
    // 59 minutes 40 seconds to Dhuhr at 17:21 rounds to 60 minutes.
    assert_eq!(times.time_remaining(utc(2015, 7, 12, 16, 21) + 20), Some((0, 60)));
    assert_eq!(times.time_remaining(utc(2015, 7, 12, 8, 0)), None);
}

#[test]
fn calculate_times_for_moonsighting_method() {
    let params = Configuration::with(Method::MoonsightingCommittee, Madhab::Shafi);
    let today = events(2016, 31, 1454261280, 1454242560, 1454280000, 1454271600, Some(1454237280), Some(1454285280));
    let tomorrow = events(2016, 32, 1454347680, 1454328900, 1454366460, 1454358060, Some(1454323680), Some(1454371740));
    let schedule = PrayerTimes::new(raleigh(), params, today, tomorrow, 1454415240).unwrap();

    assert_eq!(clock(schedule.time(Prayer::Fajr)), "10:48 AM");
    assert_eq!(clock(schedule.time(Prayer::Sunrise)), "12:16 PM");
    assert_eq!(clock(schedule.time(Prayer::Dhuhr)), "5:33 PM");
    assert_eq!(clock(schedule.time(Prayer::Asr)), "8:20 PM");
    assert_eq!(clock(schedule.time(Prayer::Maghrib)), "10:43 PM");
    assert_eq!(clock(schedule.time(Prayer::Isha)), "12:05 AM");
}

#[test]
fn calculate_times_for_moonsighting_method_with_high_latitude() {
    let params = Configuration::with(Method::MoonsightingCommittee, Madhab::Hanafi);
    let oslo = Coordinates::new(599_094_000, 107_349_000);
    let today = events(2016, 1, 1451647200, 1451636340, 1451658120, 1451651760, Some(1451626500), Some(1451667960));
    let tomorrow = events(2016, 2, 1451733660, 1451722680, 1451744640, 1451738220, Some(1451712900), Some(1451754420));
    let schedule = PrayerTimes::new(oslo, params, today, tomorrow, 1451809080).unwrap();

    assert_eq!(clock(schedule.time(Prayer::Fajr)), "6:34 AM");
    assert_eq!(clock(schedule.time(Prayer::Sunrise)), "8:19 AM");
    assert_eq!(clock(schedule.time(Prayer::Dhuhr)), "11:25 AM");
    assert_eq!(clock(schedule.time(Prayer::Asr)), "12:36 PM");
    assert_eq!(clock(schedule.time(Prayer::Maghrib)), "2:25 PM");
    assert_eq!(clock(schedule.time(Prayer::Isha)), "4:02 PM");
}

#[test]
fn fajr_never_before_the_morning_floor() {
    // A dawn five hours before sunrise is held to half the night before it.
    let params = Configuration::with(Method::MuslimWorldLeague, Madhab::Shafi);
    let today = events(2015, 193, 1436721600, 1436695680, 1436747520, 1436739720, Some(1436695680 - 5 * 3600), Some(1436752620));
    let tomorrow = events(2015, 194, 1436808000, 1436782080, 1436833920, 1436826120, Some(1436776980), Some(1436839020));
    let schedule = PrayerTimes::new(raleigh(), params, today, tomorrow, 1436868540).unwrap();
    let night = 1436782080 - 1436747520;
    assert_eq!(schedule.time(Prayer::Fajr), 1436695680 - night / 2);
}

#[test]
fn missing_twilight_falls_back_to_the_night_portion() {
    let mut config = Configuration::new(180_000_000, 170_000_000);
    config.high_latitude_rule(salah::high_latitude_rule::HighLatitudeRule::SeventhOfTheNight);
    let params = config.done();
    let today = events(2015, 193, 1436721600, 1436695680, 1436747520, 1436739720, None, None);
    let tomorrow = events(2015, 194, 1436808000, 1436782080, 1436833920, 1436826120, None, None);
    let schedule = PrayerTimes::new(raleigh(), params, today, tomorrow, 1436868540).unwrap();
    let night = 1436782080 - 1436747520;
    assert_eq!(schedule.time(Prayer::Fajr), 1436695680 - night / 7);
    assert_eq!(schedule.time(Prayer::Isha), 1436747520 + night / 7);
}

#[test]
fn isha_interval_replaces_the_angle() {
    let params = Configuration::with(Method::UmmAlQura, Madhab::Shafi);
    let schedule = raleigh_summer(params).unwrap();
    assert_eq!(schedule.time(Prayer::Isha), 1436747520 + 90 * 60);
}

#[test]
fn user_adjustments_shift_the_times() {
    let mut params = Configuration::with(Method::NorthAmerica, Madhab::Hanafi);
    params.adjustments = TimeAdjustment::new(2, -1, 0, 3, 0, -4);
    let schedule = raleigh_summer(params).unwrap();
    assert_eq!(schedule.time(Prayer::Fajr), utc(2015, 7, 12, 8, 44));
    assert_eq!(schedule.time(Prayer::Sunrise), utc(2015, 7, 12, 10, 7));
    assert_eq!(schedule.time(Prayer::Dhuhr), utc(2015, 7, 12, 17, 21));
    assert_eq!(schedule.time(Prayer::Asr), utc(2015, 7, 12, 22, 25));
    assert_eq!(schedule.time(Prayer::Isha), utc(2015, 7, 13, 1, 53));
}

#[test]
fn out_of_order_times_are_rejected() {
    let params = Configuration::with(Method::NorthAmerica, Madhab::Hanafi);
    // Asr before Dhuhr.
    let today = events(2015, 193, 1436721600, 1436695680, 1436747520, 1436700000, Some(1436690520), Some(1436752620));
    let tomorrow = events(2015, 194, 1436808000, 1436782080, 1436833920, 1436826120, Some(1436776980), Some(1436839020));
    let r = PrayerTimes::new(raleigh(), params, today, tomorrow, 1436868540);
    assert_eq!(r.err(), Some(ScheduleError::OutOfOrder));
}

#[test]
fn invalid_inputs_are_rejected() {
    let mut params = Configuration::with(Method::NorthAmerica, Madhab::Hanafi);
    params.fajr_angle = 400 * salah::unit::DEGREE;
    assert_eq!(raleigh_summer(params).err(), Some(ScheduleError::InvalidInput));

    let params = Configuration::with(Method::NorthAmerica, Madhab::Hanafi);
    let today = events(2015, 366, 1436721600, 1436695680, 1436747520, 1436739720, Some(1436690520), Some(1436752620));
    let tomorrow = events(2015, 194, 1436808000, 1436782080, 1436833920, 1436826120, Some(1436776980), Some(1436839020));
    let r = PrayerTimes::new(raleigh(), params, today, tomorrow, 1436868540);
    assert_eq!(r.err(), Some(ScheduleError::InvalidInput));
}

fn clock_at(t: i64, offset_hours: i32) -> String {
    let offset = chrono::FixedOffset::east_opt(offset_hours * 3600).unwrap();
    DateTime::from_timestamp(t, 0).unwrap().with_timezone(&offset).format("%-l:%M %p").to_string()
}

#[test]
fn calculate_times_for_singapore() {
    let mut params = Configuration::with(Method::Singapore, Madhab::Shafi);
    params.high_latitude_rule = salah::high_latitude_rule::HighLatitudeRule::MiddleOfTheNight;
    params.method_adjustments = salah::adjustments::Adjustment::new()
        .fajr(1)
        .sunrise(1)
        .dhuhr(2)
        .asr(1)
        .maghrib(1)
        .isha(1)
        .done();
    let singapore = Coordinates::new(13_708_446, 1_038_014_564);
    // Sunrise falls on the UTC date before.
    let today = events(2021, 13, 1610514780, 1610493120, 1610536500, 1610527080, Some(1610488140), Some(1610540940));
    let tomorrow = events(2021, 14, 1610601240, 1610579520, 1610622900, 1610613480, Some(1610574600), Some(1610627340));
    let schedule = PrayerTimes::new(singapore, params, today, tomorrow, 1610665980).unwrap();

    assert_eq!(clock_at(schedule.time(Prayer::Fajr), 8), "5:50 AM");
    assert_eq!(clock_at(schedule.time(Prayer::Sunrise), 8), "7:13 AM");
    assert_eq!(clock_at(schedule.time(Prayer::Dhuhr), 8), "1:15 PM");
    assert_eq!(clock_at(schedule.time(Prayer::Asr), 8), "4:39 PM");
    assert_eq!(clock_at(schedule.time(Prayer::Maghrib), 8), "7:16 PM");
    assert_eq!(clock_at(schedule.time(Prayer::Isha), 8), "8:30 PM");
}

#[test]
fn calculate_times_for_jakarta() {
    let mut params = Configuration::with(Method::Egyptian, Madhab::Shafi);
    params.method_adjustments = salah::adjustments::Adjustment::new()
        .fajr(-10)
        .sunrise(-2)
        .dhuhr(2)
        .asr(1)
        .maghrib(2)
        .isha(4)
        .done();
    let jakarta = Coordinates::new(-61_823_400, 1_068_428_715);
    let today = events(2021, 12, 1610427660, 1610405220, 1610450040, 1610440020, Some(1610400300), Some(1610454420));
    let tomorrow = events(2021, 13, 1610514060, 1610491680, 1610536500, 1610526420, Some(1610486760), Some(1610540880));
    let schedule = PrayerTimes::new(jakarta, params, today, tomorrow, 1610578080).unwrap();

    assert_eq!(clock_at(schedule.time(Prayer::Fajr), 7), "4:15 AM");
    assert_eq!(clock_at(schedule.time(Prayer::Sunrise), 7), "5:45 AM");
    assert_eq!(clock_at(schedule.time(Prayer::Dhuhr), 7), "12:03 PM");
    assert_eq!(clock_at(schedule.time(Prayer::Asr), 7), "3:28 PM");
    assert_eq!(clock_at(schedule.time(Prayer::Maghrib), 7), "6:16 PM");
    assert_eq!(clock_at(schedule.time(Prayer::Isha), 7), "7:31 PM");
}
