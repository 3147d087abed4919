//! Validation errors.

use vstd::prelude::*;

verus! {

/// A constructor rejected an input; the offending value is carried along,
/// in nano-scale fixed point.
#[derive(Clone, Copy, Debug, PartialEq, Eq, Structural)]
pub enum MeteoError {
    /// Latitude outside [-90, 90] degrees.
    InvalidLatitude(i128),
    /// Pressure outside [100, 1100] hectopascal.
    InvalidPressure(i128),
    /// Temperature anomaly outside [-50, 50] kelvin.
    InvalidTemperature(i128),
    /// Altitude outside [-400, 20000] metres.
    InvalidAltitude(i128),
}

} // verus!
