//! A thermal anomaly and its hourly development.
//!
//! Each anomaly owns a temperature perturbation, a position, a copy of the
//! physical constants, a rotation sense fixed at construction, and a
//! mutable intensity.  The hourly step recomputes the intensity from the
//! hour index, derives the Coriolis parameter, the thermal wind, the
//! induced vertical velocity and the relative vorticity, and returns them
//! as one record.

use vstd::prelude::*;
use crate::fixed::{SCALE, fp_mul, fp_div, fp_mul_spec, fp_div_spec};
use crate::fixed::{lemma_fp_mul_bound, lemma_fp_div_bound, lemma_fp_div_lower, lemma_fp_div_upper};
use crate::approx::{sin_deg_fp, sin_deg_spec, sqrt_fp, fp_sqrt_spec, exp_fp, exp_fp_spec};
use crate::constants::{PhysicalConstants, standard_constants};
use crate::position::Position;
use crate::error::MeteoError;

verus! {

/// Largest admissible temperature anomaly magnitude, kelvin.
pub const TEMP_BOUND: i128 = 50 * SCALE;

/// Largest number of hourly steps one simulation may take.  The cap exists
/// only so that the growing intensity and interaction factors stay far
/// inside the fixed-point range.
pub const MAX_TIME_STEPS: u32 = 1_000_000;

/// The intensity reached at the last admissible hour.
pub const INTENSITY_CAP: i128 = 84_000_000_000_000;

/// What one anomaly (or the combined interaction) does at one hour:
/// induced vertical velocity (metres per second), relative vorticity
/// (per second), and the hour index, the two rates in nano-scale fixed
/// point.
#[derive(Clone, Copy, Debug, PartialEq, Eq, Structural)]
pub struct DevelopmentResult {
    /// Induced vertical velocity, metres per second.
    pub vertical_velocity: i128,
    /// Relative vorticity, per second.
    pub relative_vorticity: i128,
    /// Hour index of the step that produced this record.
    pub hour: u32,
}

/// A thermal anomaly at a fixed position.
#[derive(Clone, Copy, Debug, PartialEq, Eq, Structural)]
pub struct ThermalAnomaly {
    /// Temperature perturbation against the reference temperature, kelvin.
    pub temperature_delta: i128,
    /// Where the anomaly sits.
    pub position: Position,
    /// Rotation sense, fixed at construction: cyclonic exactly for a warm
    /// perturbation.
    pub is_cyclonic: bool,
    /// Current intensity; one at construction, recomputed from the hour
    /// index at every step.
    pub intensity: i128,
    /// The anomaly's own copy of the physical constants.
    pub constants: PhysicalConstants,
}

/// Intensity at a given hour: one plus a twelfth of the hour index.
pub open spec fn intensity_spec(hour: int) -> int {
    (SCALE as int) + hour * (SCALE as int) / 12
}

impl ThermalAnomaly {
    /// Well-formed anomaly: validated temperature, valid position, rotation
    /// sense consistent with the temperature, the standard constants, and
    /// an intensity some step can have produced.
    pub open spec fn wf(self) -> bool {
        &&& -TEMP_BOUND <= self.temperature_delta <= TEMP_BOUND
        &&& self.position.valid()
        &&& self.is_cyclonic == (self.temperature_delta > 0)
        &&& self.constants == standard_constants()
        &&& (SCALE as int) <= self.intensity <= INTENSITY_CAP
    }

    /// Validating factory.  The temperature perturbation must lie within
    /// fifty kelvin of the reference; the rotation sense is derived from
    /// its sign (zero is anticyclonic) and the intensity starts at one.
    pub fn new(temperature_delta: i128, position: Position, constants: PhysicalConstants)
        -> (r: Result<ThermalAnomaly, MeteoError>)
        ensures
            (r is Ok) <==> -TEMP_BOUND <= temperature_delta <= TEMP_BOUND,
            (-TEMP_BOUND <= temperature_delta <= TEMP_BOUND) ==> r == Ok::<
                ThermalAnomaly,
                MeteoError,
            >(
                ThermalAnomaly {
                    temperature_delta,
                    position,
                    is_cyclonic: temperature_delta > 0,
                    intensity: SCALE,
                    constants,
                },
            ),
            !(-TEMP_BOUND <= temperature_delta <= TEMP_BOUND) ==> r == Err::<
                ThermalAnomaly,
                MeteoError,
            >(MeteoError::InvalidTemperature(temperature_delta)),
    {
        if temperature_delta < -TEMP_BOUND || temperature_delta > TEMP_BOUND {
            return Err(MeteoError::InvalidTemperature(temperature_delta));
        }
        Ok(
            ThermalAnomaly {
                temperature_delta,
                position,
                is_cyclonic: temperature_delta > 0,
                intensity: SCALE,
                constants,
            },
        )
    }

    /// Coriolis parameter at the anomaly's latitude: the rotation rate
    /// times the model's sine of the latitude.
    pub open spec fn coriolis_spec(self) -> int {
        fp_mul_spec(
            self.constants.earth_omega as int,
            sin_deg_spec(self.position.latitude as int),
        )
    }

    /// Wind magnitude driven by the temperature perturbation alone: the
    /// perturbation over the reference temperature, times gravity, times a
    /// thousand.
    pub open spec fn base_wind_spec(self) -> int {
        1000 * fp_mul_spec(
            fp_div_spec(self.temperature_delta as int, self.constants.base_temp as int),
            self.constants.gravity as int,
        )
    }

    /// Thermal wind: the base wind times the Coriolis parameter, negated
    /// for an anticyclonic anomaly.
    pub open spec fn thermal_wind_spec(self) -> int {
        if self.is_cyclonic {
            fp_mul_spec(self.base_wind_spec(), self.coriolis_spec())
        } else {
            -fp_mul_spec(self.base_wind_spec(), self.coriolis_spec())
        }
    }

    /// Relative vorticity from a thermal wind `w` at intensity `intensity`:
    /// `w` over the 500 km radius amplified a thousandfold (together, `w`
    /// over 500), scaled by the intensity, doubled below 500 hPa, and
    /// signed by the rotation sense.
    pub open spec fn vorticity_spec(self, w: int, intensity: int) -> int {
        let base = fp_div_spec(w, 500 * (SCALE as int));
        let scaled = fp_mul_spec(base, intensity);
        let boosted = if self.position.pressure < 500 * (SCALE as int) {
            2 * scaled
        } else {
            scaled
        };
        if self.is_cyclonic {
            boosted
        } else {
            -boosted
        }
    }

    /// The record one development step at `hour` produces.  The step reads
    /// everything but the stored intensity, which it overwrites first, so
    /// the record is a function of the anomaly's immutable fields and the
    /// hour alone.
    pub open spec fn develop_spec(self, hour: int) -> DevelopmentResult {
        let intensity = intensity_spec(hour);
        let w = self.thermal_wind_spec();
        let pf = fp_sqrt_spec(fp_div_spec(1000 * (SCALE as int), self.position.pressure as int));
        let af = exp_fp_spec(
            fp_div_spec(-(self.position.altitude as int), 8000 * (SCALE as int)),
        );
        let v = fp_mul_spec(fp_mul_spec(fp_mul_spec(w, 100_000_000), pf), af);
        let flipped = if self.position.pressure > 500 * (SCALE as int) {
            v
        } else {
            -v
        };
        DevelopmentResult {
            vertical_velocity: fp_mul_spec(flipped, intensity) as i128,
            relative_vorticity: self.vorticity_spec(w, intensity) as i128,
            hour: hour as u32,
        }
    }

    /// Coriolis parameter, exact per [`Self::coriolis_spec`].
    pub fn compute_coriolis_force(&self) -> (r: i128)
        requires
            self.wf(),
        ensures
            r == self.coriolis_spec(),
            -72_921 <= r <= 72_921,
    {
        let s: i128 = sin_deg_fp(self.position.latitude);
        let r: i128 = fp_mul(self.constants.earth_omega, s);
        proof {
            lemma_fp_mul_bound(self.constants.earth_omega as int, s as int, 72_921, SCALE as int);
            assert(72_921int * (SCALE as int) == 72_921_000_000_000int) by (nonlinear_arith);
        }
        r
    }

    /// Relative vorticity from a thermal wind, exact per
    /// [`Self::vorticity_spec`] at the stored intensity.
    pub fn compute_relative_vorticity(&self, thermal_wind: i128) -> (r: i128)
        requires
            self.wf(),
            -125_000_000 <= thermal_wind <= 125_000_000,
        ensures
            r == self.vorticity_spec(thermal_wind as int, self.intensity as int),
            -50_000_000_000 <= r <= 50_000_000_000,
    {
        let base: i128 = fp_div(thermal_wind, 500 * SCALE);
        proof {
            lemma_fp_div_bound(thermal_wind as int, 500 * (SCALE as int), 125_000_000, 500_000_000_000int);
            assert(125_000_000int * (SCALE as int) == 125_000_000_000_000_000int)
                by (nonlinear_arith);
        }
        let scaled: i128 = fp_mul(base, self.intensity);
        proof {
            lemma_fp_mul_bound(base as int, self.intensity as int, 250_000, INTENSITY_CAP as int);
            assert(250_000int * (INTENSITY_CAP as int) == 21_000_000_000_000_000_000int)
                by (nonlinear_arith);
        }
        let boosted: i128 = if self.position.pressure < 500 * SCALE {
            2 * scaled
        } else {
            scaled
        };
        if self.is_cyclonic {
            boosted
        } else {
            -boosted
        }
    }

    /// One development step: overwrite the intensity from the hour index,
    /// then derive the vertical velocity and relative vorticity.  Exact per
    /// [`Self::develop_spec`]; only the intensity changes.
    pub fn develop_baroclinic_perturbation(&mut self, hour: u32) -> (r: DevelopmentResult)
        requires
            old(self).wf(),
            hour < MAX_TIME_STEPS,
        ensures
            *final(self) == (ThermalAnomaly {
                intensity: intensity_spec(hour as int) as i128,
                ..*old(self)
            }),
            final(self).wf(),
            r == old(self).develop_spec(hour as int),
            -5_000_000_000_000 <= r.vertical_velocity <= 5_000_000_000_000,
            -50_000_000_000 <= r.relative_vorticity <= 50_000_000_000,
            r.hour == hour,
    {
        let intensity: i128 = SCALE + (((hour as u128) * 1_000_000_000u128 / 12u128) as i128);
        self.intensity = intensity;

        let coriolis: i128 = self.compute_coriolis_force();

        let a1: i128 = fp_div(self.temperature_delta, self.constants.base_temp);
        proof {
            lemma_fp_div_bound(
                self.temperature_delta as int,
                self.constants.base_temp as int,
                TEMP_BOUND as int,
                288_150_000_000int,
            );
            assert((TEMP_BOUND as int) * (SCALE as int) == 50_000_000_000_000_000_000int)
                by (nonlinear_arith);
        }
        let a2: i128 = fp_mul(a1, self.constants.gravity);
        proof {
            lemma_fp_mul_bound(a1 as int, self.constants.gravity as int, 174_000_000, 9_810_000_000int);
            assert(174_000_000int * 9_810_000_000int == 1_706_940_000_000_000_000int)
                by (nonlinear_arith);
        }
        let base_wind: i128 = 1000 * a2;
        let tw0: i128 = fp_mul(base_wind, coriolis);
        proof {
            lemma_fp_mul_bound(base_wind as int, coriolis as int, 1_710_000_000_000int, 72_921);
            assert(1_710_000_000_000int * 72_921int == 124_694_910_000_000_000int)
                by (nonlinear_arith);
        }
        let thermal_wind: i128 = if self.is_cyclonic {
            tw0
        } else {
            -tw0
        };

        let ratio: i128 = fp_div(1000 * SCALE, self.position.pressure);
        proof {
            lemma_fp_div_bound(
                1000 * (SCALE as int),
                self.position.pressure as int,
                1_000_000_000_000int,
                100_000_000_000int,
            );
            lemma_fp_div_lower(
                1000 * (SCALE as int),
                self.position.pressure as int,
                0,
                1_100_000_000_000int,
            );
            assert(1_000_000_000_000int * (SCALE as int) == 1_000_000_000_000_000_000_000int)
                by (nonlinear_arith);
        }
        let pressure_factor: i128 = sqrt_fp(ratio);

        let exp_arg: i128 = fp_div(-self.position.altitude, 8000 * SCALE);
        proof {
            lemma_fp_div_bound(
                -(self.position.altitude as int),
                8000 * (SCALE as int),
                20_000_000_000_000int,
                8_000_000_000_000int,
            );
            lemma_fp_div_upper(
                -(self.position.altitude as int),
                8000 * (SCALE as int),
                400_000_000_000int,
                8_000_000_000_000int,
            );
            assert(20_000_000_000_000int * (SCALE as int) == 20_000_000_000_000_000_000_000int)
                by (nonlinear_arith);
            assert(400_000_000_000int * (SCALE as int) == 400_000_000_000_000_000_000int)
                by (nonlinear_arith);
        }
        let altitude_factor: i128 = exp_fp(exp_arg);

        let v1: i128 = fp_mul(thermal_wind, 100_000_000);
        proof {
            lemma_fp_mul_bound(thermal_wind as int, 100_000_000int, 125_000_000, 100_000_000int);
            assert(125_000_000int * 100_000_000int == 12_500_000_000_000_000int)
                by (nonlinear_arith);
        }
        let v2: i128 = fp_mul(v1, pressure_factor);
        proof {
            lemma_fp_mul_bound(v1 as int, pressure_factor as int, 12_500_000, 4_000_000_000int);
            assert(12_500_000int * 4_000_000_000int == 50_000_000_000_000_000int)
                by (nonlinear_arith);
        }
        let v3: i128 = fp_mul(v2, altitude_factor);
        proof {
            lemma_fp_mul_bound(v2 as int, altitude_factor as int, 50_000_000, 1_100_000_000int);
            assert(50_000_000int * 1_100_000_000int == 55_000_000_000_000_000int)
                by (nonlinear_arith);
        }
        let flipped: i128 = if self.position.pressure > 500 * SCALE {
            v3
        } else {
            -v3
        };
        let vertical_velocity: i128 = fp_mul(flipped, intensity);
        proof {
            lemma_fp_mul_bound(flipped as int, intensity as int, 55_000_000, INTENSITY_CAP as int);
            assert(55_000_000int * (INTENSITY_CAP as int) == 4_620_000_000_000_000_000_000int)
                by (nonlinear_arith);
        }

        let relative_vorticity: i128 = self.compute_relative_vorticity(thermal_wind);

        DevelopmentResult { vertical_velocity, relative_vorticity, hour }
    }
}

/// The development record does not depend on the stored intensity: two
/// anomalies that agree on everything else develop identically.
pub proof fn lemma_develop_ignores_intensity(a: ThermalAnomaly, b: ThermalAnomaly, hour: int)
    requires
        a.temperature_delta == b.temperature_delta,
        a.position == b.position,
        a.is_cyclonic == b.is_cyclonic,
        a.constants == b.constants,
    ensures
        a.develop_spec(hour) == b.develop_spec(hour),
{
}

} // verus!
