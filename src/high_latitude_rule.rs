//! Rules that bound Fajr and Isha by a portion of the night.
use vstd::prelude::*;

use crate::unit::{Coordinates, DEGREE};

verus! {

#[derive(PartialEq, Eq, Structural, Debug, Copy, Clone)]
pub enum HighLatitudeRule {
    /// Fajr no earlier, and Isha no later, than the middle of the night.
    MiddleOfTheNight,
    /// Fajr no earlier than the last seventh of the night, Isha no later than
    /// its first seventh.
    SeventhOfTheNight,
    /// The portion of the night is the twilight angle over 60 degrees.
    TwilightAngle,
}

impl HighLatitudeRule {
    /// The rule advised for a location: the seventh of the night above 48
    /// degrees of latitude, else the middle of the night.
    pub fn recommended(coordinates: Coordinates) -> (r: HighLatitudeRule)
        ensures
            r == if coordinates.latitude > 48 * DEGREE {
                HighLatitudeRule::SeventhOfTheNight
            } else {
                HighLatitudeRule::MiddleOfTheNight
            },
    {
        if coordinates.latitude > 48 * DEGREE {
            HighLatitudeRule::SeventhOfTheNight
        } else {
            HighLatitudeRule::MiddleOfTheNight
        }
    }
}

} // verus!
