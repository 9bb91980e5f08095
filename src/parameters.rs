//! The configuration of a calculation: twilight angles, the Isha interval,
//! the madhab, the high latitude rule and the minute adjustments.
use vstd::prelude::*;

use crate::adjustments::TimeAdjustment;
use crate::high_latitude_rule::HighLatitudeRule;
use crate::madhab::Madhab;
use crate::method::Method;
use crate::prayer::Prayer;
use crate::rounding::Rounding;
use crate::unit::DEGREE;

verus! {

/// The angles are solar depressions in ten-millionths of a degree; a positive
/// `isha_interval` (minutes after sunset) takes the place of `isha_angle`.
#[derive(PartialEq, Eq, Structural, Debug, Copy, Clone)]
pub struct Parameters {
    pub method: Method,
    pub fajr_angle: i64,
    pub isha_angle: i64,
    pub isha_interval: i32,
    pub madhab: Madhab,
    pub high_latitude_rule: HighLatitudeRule,
    pub rounding: Rounding,
    pub adjustments: TimeAdjustment,
    pub method_adjustments: TimeAdjustment,
}

/// A portion of the night: `numerator / denominator`, with a positive
/// denominator.
#[derive(PartialEq, Eq, Structural, Debug, Copy, Clone)]
pub struct NightPortion {
    pub numerator: i64,
    pub denominator: i64,
}

/// The largest magnitude of a twilight angle: a full turn.
pub const ANGLE_LIMIT: i64 = 360 * DEGREE;

impl Parameters {
    /// Parameters of the `Other` method with the given angles and nothing else.
    pub open spec fn plain(fajr_angle: i64, isha_angle: i64) -> Parameters {
        Parameters {
            method: Method::Other,
            fajr_angle,
            isha_angle,
            isha_interval: 0,
            madhab: Madhab::Shafi,
            high_latitude_rule: HighLatitudeRule::MiddleOfTheNight,
            rounding: Rounding::Nearest,
            adjustments: TimeAdjustment::zero(),
            method_adjustments: TimeAdjustment::zero(),
        }
    }

    /// The angles are within a full turn and the adjustments within
    /// `ADJUSTMENT_LIMIT` minutes.
    pub open spec fn wf(&self) -> bool {
        &&& -ANGLE_LIMIT <= self.fajr_angle <= ANGLE_LIMIT
        &&& -ANGLE_LIMIT <= self.isha_angle <= ANGLE_LIMIT
        &&& self.adjustments.bounded()
        &&& self.method_adjustments.bounded()
    }

    pub fn is_valid(&self) -> (r: bool)
        ensures
            r == self.wf(),
    {
        -ANGLE_LIMIT <= self.fajr_angle && self.fajr_angle <= ANGLE_LIMIT && -ANGLE_LIMIT
            <= self.isha_angle && self.isha_angle <= ANGLE_LIMIT && self.adjustments.is_bounded()
            && self.method_adjustments.is_bounded()
    }

    pub fn new(fajr_angle: i64, isha_angle: i64) -> (r: Parameters)
        ensures
            r == Parameters::plain(fajr_angle, isha_angle),
    {
        Parameters {
            method: Method::Other,
            fajr_angle,
            isha_angle,
            isha_interval: 0,
            madhab: Madhab::Shafi,
            high_latitude_rule: HighLatitudeRule::MiddleOfTheNight,
            rounding: Rounding::Nearest,
            adjustments: TimeAdjustment::default(),
            method_adjustments: TimeAdjustment::default(),
        }
    }

    /// The portions of the night that bound Fajr (morning) and Isha (evening).
    pub open spec fn portions(&self) -> (NightPortion, NightPortion) {
        match self.high_latitude_rule {
            HighLatitudeRule::MiddleOfTheNight => (
                NightPortion { numerator: 1, denominator: 2 },
                NightPortion { numerator: 1, denominator: 2 },
            ),
            HighLatitudeRule::SeventhOfTheNight => (
                NightPortion { numerator: 1, denominator: 7 },
                NightPortion { numerator: 1, denominator: 7 },
            ),
            HighLatitudeRule::TwilightAngle => (
                NightPortion { numerator: self.fajr_angle, denominator: (60 * DEGREE) as i64 },
                NightPortion { numerator: self.isha_angle, denominator: (60 * DEGREE) as i64 },
            ),
        }
    }

    /// The portions of the night that bound Fajr and Isha: a half for the
    /// middle of the night, a seventh for the seventh of the night, and the
    /// twilight angle over 60 degrees for the twilight angle rule.
    pub fn night_portions(&self) -> (r: (NightPortion, NightPortion))
        ensures
            r == self.portions(),
    {
        match self.high_latitude_rule {
            HighLatitudeRule::MiddleOfTheNight => (
                NightPortion { numerator: 1, denominator: 2 },
                NightPortion { numerator: 1, denominator: 2 },
            ),
            HighLatitudeRule::SeventhOfTheNight => (
                NightPortion { numerator: 1, denominator: 7 },
                NightPortion { numerator: 1, denominator: 7 },
            ),
            HighLatitudeRule::TwilightAngle => (
                NightPortion { numerator: self.fajr_angle, denominator: 60 * DEGREE },
                NightPortion { numerator: self.isha_angle, denominator: 60 * DEGREE },
            ),
        }
    }

    /// The minutes added to a prayer: the user's adjustment plus the method's;
    /// none for Qiyam and tomorrow's Fajr.
    pub open spec fn adjustment(&self, prayer: Prayer) -> int {
        match prayer {
            Prayer::Fajr => self.adjustments.fajr + self.method_adjustments.fajr,
            Prayer::Sunrise => self.adjustments.sunrise + self.method_adjustments.sunrise,
            Prayer::Dhuhr => self.adjustments.dhuhr + self.method_adjustments.dhuhr,
            Prayer::Asr => self.adjustments.asr + self.method_adjustments.asr,
            Prayer::Maghrib => self.adjustments.maghrib + self.method_adjustments.maghrib,
            Prayer::Isha => self.adjustments.isha + self.method_adjustments.isha,
            _ => 0,
        }
    }

    pub fn time_adjustments(&self, prayer: Prayer) -> (r: i64)
        requires
            self.wf(),
        ensures
            r == self.adjustment(prayer),
            -2 * crate::adjustments::ADJUSTMENT_LIMIT <= r <= 2 * crate::adjustments::ADJUSTMENT_LIMIT,
    {
        match prayer {
            Prayer::Fajr => self.adjustments.fajr + self.method_adjustments.fajr,
            Prayer::Sunrise => self.adjustments.sunrise + self.method_adjustments.sunrise,
            Prayer::Dhuhr => self.adjustments.dhuhr + self.method_adjustments.dhuhr,
            Prayer::Asr => self.adjustments.asr + self.method_adjustments.asr,
            Prayer::Maghrib => self.adjustments.maghrib + self.method_adjustments.maghrib,
            Prayer::Isha => self.adjustments.isha + self.method_adjustments.isha,
            _ => 0,
        }
    }
}

/// A builder for [`Parameters`].
pub struct Configuration {
    method: Method,
    fajr_angle: i64,
    isha_angle: i64,
    isha_interval: i32,
    madhab: Madhab,
    high_latitude_rule: HighLatitudeRule,
    rounding: Rounding,
    adjustments: TimeAdjustment,
    method_adjustments: TimeAdjustment,
}

impl View for Configuration {
    type V = Parameters;

    closed spec fn view(&self) -> Parameters {
        Parameters {
            method: self.method,
            fajr_angle: self.fajr_angle,
            isha_angle: self.isha_angle,
            isha_interval: self.isha_interval,
            madhab: self.madhab,
            high_latitude_rule: self.high_latitude_rule,
            rounding: self.rounding,
            adjustments: self.adjustments,
            method_adjustments: self.method_adjustments,
        }
    }
}

impl Configuration {
    pub fn new(fajr_angle: i64, isha_angle: i64) -> (r: Configuration)
        ensures
            r@ == Parameters::plain(fajr_angle, isha_angle),
    {
        Configuration {
            method: Method::Other,
            fajr_angle,
            isha_angle,
            isha_interval: 0,
            madhab: Madhab::Shafi,
            high_latitude_rule: HighLatitudeRule::MiddleOfTheNight,
            rounding: Rounding::Nearest,
            adjustments: TimeAdjustment::default(),
            method_adjustments: TimeAdjustment::default(),
        }
    }

    /// The preset of a method, with the given madhab.
    pub fn with(method: Method, madhab: Madhab) -> (r: Parameters)
        ensures
            r == (Parameters { madhab, ..method.preset() }),
    {
        let mut params = method.parameters();
        params.madhab = madhab;
        params
    }

    pub fn method(&mut self, method: Method) -> (r: &mut Configuration)
        ensures
            r@ == (Parameters { method, ..old(self)@ }),
            final(self)@ == final(r)@,
    {
        self.method = method;
        self
    }

    pub fn method_adjustments(&mut self, method_adjustments: TimeAdjustment) -> (r: &mut Configuration)
        ensures
            r@ == (Parameters { method_adjustments, ..old(self)@ }),
            final(self)@ == final(r)@,
    {
        self.method_adjustments = method_adjustments;
        self
    }

    pub fn adjustments(&mut self, adjustments: TimeAdjustment) -> (r: &mut Configuration)
        ensures
            r@ == (Parameters { adjustments, ..old(self)@ }),
            final(self)@ == final(r)@,
    {
        self.adjustments = adjustments;
        self
    }

    pub fn high_latitude_rule(&mut self, high_latitude_rule: HighLatitudeRule) -> (r: &mut Configuration)
        ensures
            r@ == (Parameters { high_latitude_rule, ..old(self)@ }),
            final(self)@ == final(r)@,
    {
        self.high_latitude_rule = high_latitude_rule;
        self
    }

    pub fn madhab(&mut self, madhab: Madhab) -> (r: &mut Configuration)
        ensures
            r@ == (Parameters { madhab, ..old(self)@ }),
            final(self)@ == final(r)@,
    {
        self.madhab = madhab;
        self
    }

    pub fn rounding(&mut self, rounding: Rounding) -> (r: &mut Configuration)
        ensures
            r@ == (Parameters { rounding, ..old(self)@ }),
            final(self)@ == final(r)@,
    {
        self.rounding = rounding;
        self
    }

    /// Sets a fixed Isha interval in minutes after sunset, which clears the
    /// Isha angle.
    pub fn isha_interval(&mut self, isha_interval: i32) -> (r: &mut Configuration)
        ensures
            r@ == (Parameters { isha_angle: 0, isha_interval, ..old(self)@ }),
            final(self)@ == final(r)@,
    {
        self.isha_angle = 0;
        self.isha_interval = isha_interval;
        self
    }

    pub fn done(&self) -> (r: Parameters)
        ensures
            r == self@,
    {
        Parameters {
            method: self.method,
            fajr_angle: self.fajr_angle,
            isha_angle: self.isha_angle,
            isha_interval: self.isha_interval,
            madhab: self.madhab,
            high_latitude_rule: self.high_latitude_rule,
            rounding: self.rounding,
            adjustments: self.adjustments,
            method_adjustments: self.method_adjustments,
        }
    }
}

} // verus!
