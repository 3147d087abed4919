//! The bundle of physical constants shared by both anomalies.

use vstd::prelude::*;

verus! {

/// Earth's rotation rate, gravity and the reference temperature, each in
/// nano-scale fixed point.  One bundle is copied into every anomaly, so a
/// run never shares mutable state between the two.
#[derive(Clone, Copy, Debug, PartialEq, Eq, Structural)]
pub struct PhysicalConstants {
    /// Rotation rate of the Earth, radians per second.
    pub earth_omega: i128,
    /// Gravitational acceleration, metres per second squared.
    pub gravity: i128,
    /// Reference temperature, kelvin.
    pub base_temp: i128,
}

/// The standard bundle: 7.2921e-5 rad/s, 9.81 m/s^2 and 288.15 K.
pub open spec fn standard_constants() -> PhysicalConstants {
    PhysicalConstants { earth_omega: 72_921, gravity: 9_810_000_000, base_temp: 288_150_000_000 }
}

impl Default for PhysicalConstants {
    /// The standard bundle is the only constructor, so every simulation
    /// runs with the same constants.
    fn default() -> (c: Self)
        ensures
            c == standard_constants(),
    {
        PhysicalConstants {
            earth_omega: 72_921,
            gravity: 9_810_000_000,
            base_temp: 288_150_000_000,
        }
    }
}

} // verus!
