//! Where an anomaly sits: a validated latitude, altitude and pressure.

use vstd::prelude::*;
use crate::fixed::SCALE;
use crate::error::MeteoError;

verus! {

/// Largest admissible latitude magnitude, degrees.
pub const LAT_BOUND: i128 = 90 * SCALE;

/// Lowest admissible altitude, metres.
pub const ALT_MIN: i128 = -400 * SCALE;

/// Highest admissible altitude, metres.
pub const ALT_MAX: i128 = 20_000 * SCALE;

/// Lowest admissible pressure, hectopascal.
pub const PRESSURE_MIN: i128 = 100 * SCALE;

/// Highest admissible pressure, hectopascal.
pub const PRESSURE_MAX: i128 = 1_100 * SCALE;

/// Geographic position and ambient pressure of one anomaly, in nano-scale
/// fixed point.  Built only through the validating factory, and immutable
/// afterwards.
#[derive(Clone, Copy, Debug, PartialEq, Eq, Structural)]
pub struct Position {
    /// Latitude, degrees.
    pub latitude: i128,
    /// Altitude above sea level, metres.
    pub altitude: i128,
    /// Ambient pressure, hectopascal.
    pub pressure: i128,
}

impl Position {
    /// All three coordinates lie within their documented ranges.
    pub open spec fn valid(self) -> bool {
        &&& -LAT_BOUND <= self.latitude <= LAT_BOUND
        &&& ALT_MIN <= self.altitude <= ALT_MAX
        &&& PRESSURE_MIN <= self.pressure <= PRESSURE_MAX
    }

    /// Validating factory.  Latitude is checked first, then altitude, then
    /// pressure; only the first violated bound is reported.  Within bounds
    /// the position is returned unchanged.
    pub fn new(latitude: i128, altitude: i128, pressure: i128) -> (r: Result<
        Position,
        MeteoError,
    >)
        ensures
            (r is Ok) <==> (Position { latitude, altitude, pressure }).valid(),
            !(-LAT_BOUND <= latitude <= LAT_BOUND) ==> r == Err::<Position, MeteoError>(
                MeteoError::InvalidLatitude(latitude),
            ),
            (-LAT_BOUND <= latitude <= LAT_BOUND && !(ALT_MIN <= altitude <= ALT_MAX)) ==> r
                == Err::<Position, MeteoError>(MeteoError::InvalidAltitude(altitude)),
            (-LAT_BOUND <= latitude <= LAT_BOUND && ALT_MIN <= altitude <= ALT_MAX && !(
            PRESSURE_MIN <= pressure <= PRESSURE_MAX)) ==> r == Err::<Position, MeteoError>(
                MeteoError::InvalidPressure(pressure),
            ),
            (Position { latitude, altitude, pressure }).valid() ==> r == Ok::<
                Position,
                MeteoError,
            >(Position { latitude, altitude, pressure }),
    {
        if latitude < -LAT_BOUND || latitude > LAT_BOUND {
            return Err(MeteoError::InvalidLatitude(latitude));
        }
        if altitude < ALT_MIN || altitude > ALT_MAX {
            return Err(MeteoError::InvalidAltitude(altitude));
        }
        if pressure < PRESSURE_MIN || pressure > PRESSURE_MAX {
            return Err(MeteoError::InvalidPressure(pressure));
        }
        Ok(Position { latitude, altitude, pressure })
    }
}

} // verus!
