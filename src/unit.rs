//! Fixed-point angles and observer coordinates.
use vstd::prelude::*;

verus! {

/// One degree, in the fixed-point unit used for every angle of the library
/// (ten-millionths of a degree).
pub const DEGREE: i64 = 10_000_000;

/// The latitude and longitude of a location, in ten-millionths of a degree.
/// Latitudes are conventionally within [-90, 90] degrees and longitudes within
/// [-180, 180]; neither is enforced.
#[derive(PartialEq, Eq, Structural, Debug, Copy, Clone)]
pub struct Coordinates {
    pub latitude: i64,
    pub longitude: i64,
}

impl Coordinates {
    pub fn new(latitude: i64, longitude: i64) -> (r: Coordinates)
        ensures
            r.latitude == latitude,
            r.longitude == longitude,
    {
        Coordinates { latitude, longitude }
    }
}

} // verus!
