//! The calculation authorities and their preset parameters.
use vstd::prelude::*;

use crate::adjustments::TimeAdjustment;
use crate::parameters::Parameters;
use crate::rounding::Rounding;

verus! {

#[derive(PartialEq, Eq, Structural, Debug, Copy, Clone)]
pub enum Method {
    /// Muslim World League: Fajr 18, Isha 17.
    MuslimWorldLeague,
    /// Egyptian General Authority of Survey: Fajr 19.5, Isha 17.5.
    Egyptian,
    /// University of Islamic Sciences, Karachi: Fajr 18, Isha 18.
    Karachi,
    /// Umm al-Qura University, Makkah: Fajr 18.5, Isha 90 minutes after sunset.
    UmmAlQura,
    /// Dubai: Fajr 18.2, Isha 18.2.
    Dubai,
    /// Moonsighting Committee: Fajr 18, Isha 18, with the seasonal twilight
    /// model.
    MoonsightingCommittee,
    /// ISNA: Fajr 15, Isha 15.
    NorthAmerica,
    /// Kuwait: Fajr 18, Isha 17.5.
    Kuwait,
    /// Qatar: Fajr 18, Isha 90 minutes after sunset.
    Qatar,
    /// Singapore: Fajr 20, Isha 18, times rounded up.
    Singapore,
    /// Institute of Geophysics, University of Tehran: Fajr 17.7, Isha 14.
    Tehran,
    /// Diyanet, Turkey: Fajr 18, Isha 17.
    Turkey,
    /// No preset: every angle is zero.
    Other,
}

/// Preset minutes added to each prayer.
pub open spec fn minutes(sunrise: int, dhuhr: int, asr: int, maghrib: int) -> TimeAdjustment {
    TimeAdjustment {
        fajr: 0,
        sunrise: sunrise as i64,
        dhuhr: dhuhr as i64,
        asr: asr as i64,
        maghrib: maghrib as i64,
        isha: 0,
    }
}

/// A preset: angles in tenths of a degree, an Isha interval, a rounding and the
/// method's own adjustments.
pub open spec fn preset_of(
    method: Method,
    fajr_tenths: i64,
    isha_tenths: i64,
    isha_interval: i32,
    rounding: Rounding,
    method_adjustments: TimeAdjustment,
) -> Parameters {
    Parameters {
        method,
        fajr_angle: (fajr_tenths * 1_000_000) as i64,
        isha_angle: (isha_tenths * 1_000_000) as i64,
        isha_interval,
        rounding,
        method_adjustments,
        ..Parameters::plain(0, 0)
    }
}

fn make_preset(
    method: Method,
    fajr_tenths: i64,
    isha_tenths: i64,
    isha_interval: i32,
    rounding: Rounding,
    method_adjustments: TimeAdjustment,
) -> (r: Parameters)
    requires
        0 <= fajr_tenths <= 3600,
        0 <= isha_tenths <= 3600,
    ensures
        r == preset_of(method, fajr_tenths, isha_tenths, isha_interval, rounding, method_adjustments),
{
    let mut params = Parameters::new(fajr_tenths * 1_000_000, isha_tenths * 1_000_000);
    params.method = method;
    params.isha_interval = isha_interval;
    params.rounding = rounding;
    params.method_adjustments = method_adjustments;
    params
}

impl Method {
    /// The preset parameters of each method.
    pub open spec fn preset(self) -> Parameters {
        match self {
            Method::MuslimWorldLeague => preset_of(self, 180, 170, 0, Rounding::Nearest, minutes(0, 1, 0, 0)),
            Method::Egyptian => preset_of(self, 195, 175, 0, Rounding::Nearest, minutes(0, 1, 0, 0)),
            Method::Karachi => preset_of(self, 180, 180, 0, Rounding::Nearest, minutes(0, 1, 0, 0)),
            Method::UmmAlQura => preset_of(self, 185, 0, 90, Rounding::Nearest, minutes(0, 0, 0, 0)),
            Method::Dubai => preset_of(self, 182, 182, 0, Rounding::Nearest, minutes(-3, 3, 3, 3)),
            Method::MoonsightingCommittee => preset_of(self, 180, 180, 0, Rounding::Nearest, minutes(0, 5, 0, 3)),
            Method::NorthAmerica => preset_of(self, 150, 150, 0, Rounding::Nearest, minutes(0, 1, 0, 0)),
            Method::Kuwait => preset_of(self, 180, 175, 0, Rounding::Nearest, minutes(0, 0, 0, 0)),
            Method::Qatar => preset_of(self, 180, 0, 90, Rounding::Nearest, minutes(0, 0, 0, 0)),
            Method::Singapore => preset_of(self, 200, 180, 0, Rounding::Up, minutes(0, 1, 0, 0)),
            Method::Tehran => preset_of(self, 177, 140, 0, Rounding::Nearest, minutes(0, 0, 0, 0)),
            Method::Turkey => preset_of(self, 180, 170, 0, Rounding::Nearest, minutes(-7, 5, 4, 7)),
            Method::Other => preset_of(self, 0, 0, 0, Rounding::Nearest, minutes(0, 0, 0, 0)),
        }
    }

    /// The preset parameters of the method.
    pub fn parameters(&self) -> (r: Parameters)
        ensures
            r == self.preset(),
            r.wf(),
    {
        let m = *self;
        match self {
            Method::MuslimWorldLeague => make_preset(m, 180, 170, 0, Rounding::Nearest, TimeAdjustment::new(0, 0, 1, 0, 0, 0)),
            Method::Egyptian => make_preset(m, 195, 175, 0, Rounding::Nearest, TimeAdjustment::new(0, 0, 1, 0, 0, 0)),
            Method::Karachi => make_preset(m, 180, 180, 0, Rounding::Nearest, TimeAdjustment::new(0, 0, 1, 0, 0, 0)),
            Method::UmmAlQura => make_preset(m, 185, 0, 90, Rounding::Nearest, TimeAdjustment::new(0, 0, 0, 0, 0, 0)),
            Method::Dubai => make_preset(m, 182, 182, 0, Rounding::Nearest, TimeAdjustment::new(0, -3, 3, 3, 3, 0)),
            Method::MoonsightingCommittee => make_preset(m, 180, 180, 0, Rounding::Nearest, TimeAdjustment::new(0, 0, 5, 0, 3, 0)),
            Method::NorthAmerica => make_preset(m, 150, 150, 0, Rounding::Nearest, TimeAdjustment::new(0, 0, 1, 0, 0, 0)),
            Method::Kuwait => make_preset(m, 180, 175, 0, Rounding::Nearest, TimeAdjustment::new(0, 0, 0, 0, 0, 0)),
            Method::Qatar => make_preset(m, 180, 0, 90, Rounding::Nearest, TimeAdjustment::new(0, 0, 0, 0, 0, 0)),
            Method::Singapore => make_preset(m, 200, 180, 0, Rounding::Up, TimeAdjustment::new(0, 0, 1, 0, 0, 0)),
            Method::Tehran => make_preset(m, 177, 140, 0, Rounding::Nearest, TimeAdjustment::new(0, 0, 0, 0, 0, 0)),
            Method::Turkey => make_preset(m, 180, 170, 0, Rounding::Nearest, TimeAdjustment::new(0, -7, 5, 4, 7, 0)),
            Method::Other => make_preset(m, 0, 0, 0, Rounding::Nearest, TimeAdjustment::new(0, 0, 0, 0, 0, 0)),
        }
    }
}

} // verus!
