//! The prayers of a day.
use vstd::prelude::*;

verus! {

#[derive(PartialEq, Eq, Structural, Debug, Copy, Clone)]
pub enum Prayer {
    Fajr,
    Sunrise,
    Dhuhr,
    Asr,
    Maghrib,
    Isha,
    Qiyam,
    FajrTomorrow,
}

impl Prayer {
    /// The prayer that follows in the day's order; tomorrow's Fajr closes it.
    pub open spec fn successor(self) -> Prayer {
        match self {
            Prayer::Fajr => Prayer::Sunrise,
            Prayer::Sunrise => Prayer::Dhuhr,
            Prayer::Dhuhr => Prayer::Asr,
            Prayer::Asr => Prayer::Maghrib,
            Prayer::Maghrib => Prayer::Isha,
            Prayer::Isha => Prayer::Qiyam,
            Prayer::Qiyam => Prayer::FajrTomorrow,
            Prayer::FajrTomorrow => Prayer::FajrTomorrow,
        }
    }

    /// The prayer that follows in the day's order.
    pub fn following(&self) -> (r: Prayer)
        ensures
            r == self.successor(),
    {
        match self {
            Prayer::Fajr => Prayer::Sunrise,
            Prayer::Sunrise => Prayer::Dhuhr,
            Prayer::Dhuhr => Prayer::Asr,
            Prayer::Asr => Prayer::Maghrib,
            Prayer::Maghrib => Prayer::Isha,
            Prayer::Isha => Prayer::Qiyam,
            Prayer::Qiyam => Prayer::FajrTomorrow,
            Prayer::FajrTomorrow => Prayer::FajrTomorrow,
        }
    }

    /// The transliterated name of the prayer; on a Friday Dhuhr is Jumua.
    pub open spec fn name_of(self, friday: bool) -> Seq<char> {
        match self {
            Prayer::Fajr | Prayer::FajrTomorrow => "Fajr"@,
            Prayer::Sunrise => "Sunrise"@,
            Prayer::Dhuhr => if friday { "Jumua"@ } else { "Dhuhr"@ },
            Prayer::Asr => "Asr"@,
            Prayer::Maghrib => "Maghrib"@,
            Prayer::Isha => "Isha"@,
            Prayer::Qiyam => "Qiyam"@,
        }
    }

    /// The transliterated name of the prayer, on a Friday or another day.
    pub fn name(&self, friday: bool) -> (r: String)
        ensures
            r@ == self.name_of(friday),
    {
        match self {
            Prayer::Fajr | Prayer::FajrTomorrow => String::from_str("Fajr"),
            Prayer::Sunrise => String::from_str("Sunrise"),
            Prayer::Dhuhr => if friday {
                String::from_str("Jumua")
            } else {
                String::from_str("Dhuhr")
            },
            Prayer::Asr => String::from_str("Asr"),
            Prayer::Maghrib => String::from_str("Maghrib"),
            Prayer::Isha => String::from_str("Isha"),
            Prayer::Qiyam => String::from_str("Qiyam"),
        }
    }
}

} // verus!
