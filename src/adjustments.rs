//! Per-prayer time adjustments, in minutes.
use vstd::prelude::*;

verus! {

/// Minutes added to each prayer time.
#[derive(PartialEq, Eq, Structural, Debug, Copy, Clone)]
pub struct TimeAdjustment {
    pub fajr: i64,
    pub sunrise: i64,
    pub dhuhr: i64,
    pub asr: i64,
    pub maghrib: i64,
    pub isha: i64,
}

/// The largest magnitude of a single adjustment, in minutes.
pub const ADJUSTMENT_LIMIT: i64 = 1_000_000_000;

impl TimeAdjustment {
    pub fn new(fajr: i64, sunrise: i64, dhuhr: i64, asr: i64, maghrib: i64, isha: i64) -> (r: Self)
        ensures
            r == (TimeAdjustment { fajr, sunrise, dhuhr, asr, maghrib, isha }),
    {
        TimeAdjustment { fajr, sunrise, dhuhr, asr, maghrib, isha }
    }

    /// No adjustment at all.
    pub open spec fn zero() -> TimeAdjustment {
        TimeAdjustment { fajr: 0, sunrise: 0, dhuhr: 0, asr: 0, maghrib: 0, isha: 0 }
    }

    /// Every adjustment is within `ADJUSTMENT_LIMIT` minutes.
    pub open spec fn bounded(&self) -> bool {
        &&& -ADJUSTMENT_LIMIT <= self.fajr <= ADJUSTMENT_LIMIT
        &&& -ADJUSTMENT_LIMIT <= self.sunrise <= ADJUSTMENT_LIMIT
        &&& -ADJUSTMENT_LIMIT <= self.dhuhr <= ADJUSTMENT_LIMIT
        &&& -ADJUSTMENT_LIMIT <= self.asr <= ADJUSTMENT_LIMIT
        &&& -ADJUSTMENT_LIMIT <= self.maghrib <= ADJUSTMENT_LIMIT
        &&& -ADJUSTMENT_LIMIT <= self.isha <= ADJUSTMENT_LIMIT
    }

    pub fn is_bounded(&self) -> (r: bool)
        ensures
            r == self.bounded(),
    {
        -ADJUSTMENT_LIMIT <= self.fajr && self.fajr <= ADJUSTMENT_LIMIT
            && -ADJUSTMENT_LIMIT <= self.sunrise && self.sunrise <= ADJUSTMENT_LIMIT
            && -ADJUSTMENT_LIMIT <= self.dhuhr && self.dhuhr <= ADJUSTMENT_LIMIT
            && -ADJUSTMENT_LIMIT <= self.asr && self.asr <= ADJUSTMENT_LIMIT
            && -ADJUSTMENT_LIMIT <= self.maghrib && self.maghrib <= ADJUSTMENT_LIMIT
            && -ADJUSTMENT_LIMIT <= self.isha && self.isha <= ADJUSTMENT_LIMIT
    }
}

impl Default for TimeAdjustment {
    fn default() -> (r: TimeAdjustment)
        ensures
            r == TimeAdjustment::zero(),
    {
        TimeAdjustment { fajr: 0, sunrise: 0, dhuhr: 0, asr: 0, maghrib: 0, isha: 0 }
    }
}

/// A builder for [`TimeAdjustment`].
pub struct Adjustment {
    fajr: i64,
    sunrise: i64,
    dhuhr: i64,
    asr: i64,
    maghrib: i64,
    isha: i64,
}

impl View for Adjustment {
    type V = TimeAdjustment;

    closed spec fn view(&self) -> TimeAdjustment {
        TimeAdjustment {
            fajr: self.fajr,
            sunrise: self.sunrise,
            dhuhr: self.dhuhr,
            asr: self.asr,
            maghrib: self.maghrib,
            isha: self.isha,
        }
    }
}

impl Adjustment {
    pub fn new() -> (r: Adjustment)
        ensures
            r@ == TimeAdjustment::zero(),
    {
        Adjustment { fajr: 0, sunrise: 0, dhuhr: 0, asr: 0, maghrib: 0, isha: 0 }
    }

    pub fn fajr(&mut self, fajr: i64) -> (r: &mut Adjustment)
        ensures
            r@ == (TimeAdjustment { fajr, ..old(self)@ }),
            final(self)@ == final(r)@,
    {
        self.fajr = fajr;
        self
    }

    pub fn sunrise(&mut self, sunrise: i64) -> (r: &mut Adjustment)
        ensures
            r@ == (TimeAdjustment { sunrise, ..old(self)@ }),
            final(self)@ == final(r)@,
    {
        self.sunrise = sunrise;
        self
    }

    pub fn dhuhr(&mut self, dhuhr: i64) -> (r: &mut Adjustment)
        ensures
            r@ == (TimeAdjustment { dhuhr, ..old(self)@ }),
            final(self)@ == final(r)@,
    {
        self.dhuhr = dhuhr;
        self
    }

    pub fn asr(&mut self, asr: i64) -> (r: &mut Adjustment)
        ensures
            r@ == (TimeAdjustment { asr, ..old(self)@ }),
            final(self)@ == final(r)@,
    {
        self.asr = asr;
        self
    }

    pub fn maghrib(&mut self, maghrib: i64) -> (r: &mut Adjustment)
        ensures
            r@ == (TimeAdjustment { maghrib, ..old(self)@ }),
            final(self)@ == final(r)@,
    {
        self.maghrib = maghrib;
        self
    }

    pub fn isha(&mut self, isha: i64) -> (r: &mut Adjustment)
        ensures
            r@ == (TimeAdjustment { isha, ..old(self)@ }),
            final(self)@ == final(r)@,
    {
        self.isha = isha;
        self
    }

    pub fn done(&self) -> (r: TimeAdjustment)
        ensures
            r == self@,
    {
        TimeAdjustment {
            fajr: self.fajr,
            sunrise: self.sunrise,
            dhuhr: self.dhuhr,
            asr: self.asr,
            maghrib: self.maghrib,
            isha: self.isha,
        }
    }
}

} // verus!
