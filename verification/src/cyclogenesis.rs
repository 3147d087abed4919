//! The two-anomaly scenario and its interaction simulation.

use vstd::prelude::*;
use crate::fixed::{SCALE, fp_mul, fp_mul_spec};
use crate::constants::{PhysicalConstants, standard_constants};
use crate::position::{Position, LAT_BOUND};
use crate::anomaly::{
    ThermalAnomaly, DevelopmentResult, intensity_spec, lemma_develop_ignores_intensity,
    TEMP_BOUND, MAX_TIME_STEPS,
};
use crate::error::MeteoError;

verus! {

/// Interaction scaling at a given hour: inside a baroclinic zone, one and
/// a half times one-plus-a-twenty-fourth-of-the-hour (exactly one and a
/// half plus a sixteenth of the hour); outside, one.
pub open spec fn interaction_factor_spec(zone: bool, hour: int) -> int {
    if zone {
        1_500_000_000 + hour * 62_500_000
    } else {
        SCALE as int
    }
}

/// A cyclogenesis scenario: one surface anomaly, one anomaly aloft, and a
/// baroclinic-zone switch.
#[derive(Clone, Copy, Debug, PartialEq, Eq, Structural)]
pub struct BaroclinicCyclogenesis {
    /// The anomaly at sea level (1013 hPa).
    pub surface_anomaly: ThermalAnomaly,
    /// The anomaly aloft (5000 m, 500 hPa).
    pub altitude_anomaly: ThermalAnomaly,
    /// Whether the two anomalies sit in a baroclinic zone; always set by
    /// the constructor, but modelled as explicit state.
    pub baroclinic_zone: bool,
}

impl BaroclinicCyclogenesis {
    /// Both anomalies are well formed.
    pub open spec fn wf(self) -> bool {
        &&& self.surface_anomaly.wf()
        &&& self.altitude_anomaly.wf()
    }

    /// The scenario `new` builds for in-range inputs.
    pub open spec fn init_spec(surface_temp: i128, altitude_temp: i128, latitude: i128)
        -> BaroclinicCyclogenesis {
        BaroclinicCyclogenesis {
            surface_anomaly: ThermalAnomaly {
                temperature_delta: surface_temp,
                position: Position { latitude, altitude: 0, pressure: 1_013_000_000_000i128 },
                is_cyclonic: surface_temp > 0,
                intensity: SCALE,
                constants: standard_constants(),
            },
            altitude_anomaly: ThermalAnomaly {
                temperature_delta: altitude_temp,
                position: Position {
                    latitude,
                    altitude: 5_000_000_000_000i128,
                    pressure: 500_000_000_000i128,
                },
                is_cyclonic: altitude_temp > 0,
                intensity: SCALE,
                constants: standard_constants(),
            },
            baroclinic_zone: true,
        }
    }

    /// The scenario state after `n` steps have been taken: both intensities
    /// stand at the value of the last hour stepped.
    pub open spec fn after_spec(self, n: int) -> BaroclinicCyclogenesis {
        if n == 0 {
            self
        } else {
            BaroclinicCyclogenesis {
                surface_anomaly: ThermalAnomaly {
                    intensity: intensity_spec(n - 1) as i128,
                    ..self.surface_anomaly
                },
                altitude_anomaly: ThermalAnomaly {
                    intensity: intensity_spec(n - 1) as i128,
                    ..self.altitude_anomaly
                },
                ..self
            }
        }
    }

    /// The combined record at a given hour: both anomalies develop
    /// independently, their rates are summed and scaled by the interaction
    /// factor.
    pub open spec fn combined_spec(self, hour: int) -> DevelopmentResult {
        let s = self.surface_anomaly.develop_spec(hour);
        let a = self.altitude_anomaly.develop_spec(hour);
        let f = interaction_factor_spec(self.baroclinic_zone, hour);
        DevelopmentResult {
            vertical_velocity: fp_mul_spec(
                s.vertical_velocity + a.vertical_velocity,
                f,
            ) as i128,
            relative_vorticity: fp_mul_spec(
                s.relative_vorticity + a.relative_vorticity,
                f,
            ) as i128,
            hour: hour as u32,
        }
    }

    /// The whole ordered result sequence of a simulation of `n` steps.
    pub open spec fn simulation_spec(self, n: int) -> Seq<DevelopmentResult> {
        Seq::new(n as nat, |i: int| self.combined_spec(i))
    }

    /// Validating factory.  Builds the standard constants, a surface
    /// position at (latitude, 0 m, 1013 hPa) and a position aloft at
    /// (latitude, 5000 m, 500 hPa), then the two anomalies; the first
    /// validation failure is returned unchanged, in the order latitude,
    /// surface temperature, altitude temperature.
    pub fn new(surface_temp: i128, altitude_temp: i128, latitude: i128) -> (r: Result<
        BaroclinicCyclogenesis,
        MeteoError,
    >)
        ensures
            (r is Ok) <==> (-LAT_BOUND <= latitude <= LAT_BOUND && -TEMP_BOUND <= surface_temp
                <= TEMP_BOUND && -TEMP_BOUND <= altitude_temp <= TEMP_BOUND),
            !(-LAT_BOUND <= latitude <= LAT_BOUND) ==> r == Err::<
                BaroclinicCyclogenesis,
                MeteoError,
            >(MeteoError::InvalidLatitude(latitude)),
            (-LAT_BOUND <= latitude <= LAT_BOUND && !(-TEMP_BOUND <= surface_temp <= TEMP_BOUND))
                ==> r == Err::<BaroclinicCyclogenesis, MeteoError>(
                MeteoError::InvalidTemperature(surface_temp),
            ),
            (-LAT_BOUND <= latitude <= LAT_BOUND && -TEMP_BOUND <= surface_temp <= TEMP_BOUND && !(
            -TEMP_BOUND <= altitude_temp <= TEMP_BOUND)) ==> r == Err::<
                BaroclinicCyclogenesis,
                MeteoError,
            >(MeteoError::InvalidTemperature(altitude_temp)),
            (r is Ok) ==> r == Ok::<BaroclinicCyclogenesis, MeteoError>(
                Self::init_spec(surface_temp, altitude_temp, latitude),
            ) && Self::init_spec(surface_temp, altitude_temp, latitude).wf(),
    {
        let constants = PhysicalConstants::default();

        let surface_position = match Position::new(latitude, 0, 1013 * SCALE) {
            Ok(p) => p,
            Err(e) => {
                return Err(e);
            },
        };
        let altitude_position = match Position::new(latitude, 5000 * SCALE, 500 * SCALE) {
            Ok(p) => p,
            Err(e) => {
                return Err(e);
            },
        };

        let surface_anomaly = match ThermalAnomaly::new(surface_temp, surface_position, constants) {
            Ok(a) => a,
            Err(e) => {
                return Err(e);
            },
        };
        let altitude_anomaly = match ThermalAnomaly::new(
            altitude_temp,
            altitude_position,
            constants,
        ) {
            Ok(a) => a,
            Err(e) => {
                return Err(e);
            },
        };

        Ok(
            BaroclinicCyclogenesis {
                surface_anomaly,
                altitude_anomaly,
                baroclinic_zone: true,
            },
        )
    }

    /// Run the model for `time_steps` hours, hour 0 first.  Each step
    /// develops both anomalies independently and appends one combined
    /// record; the returned sequence is exactly [`Self::simulation_spec`],
    /// so it has one record per hour, in strictly increasing hour order,
    /// and is a function of the initial scenario alone.
    pub fn simulate_interaction(&mut self, time_steps: u32) -> (results: Vec<DevelopmentResult>)
        requires
            old(self).wf(),
            time_steps <= MAX_TIME_STEPS,
        ensures
            results@ == old(self).simulation_spec(time_steps as int),
            results@.len() == time_steps as int,
            forall|i: int|
                0 <= i < time_steps as int ==> results@[i] == old(self).combined_spec(i),
            forall|i: int|
                0 <= i < time_steps as int ==> (#[trigger] results@[i]).hour == i as u32,
            *final(self) == old(self).after_spec(time_steps as int),
            final(self).wf(),
    {
        let ghost s0: BaroclinicCyclogenesis = *self;
        let mut results: Vec<DevelopmentResult> = Vec::new();
        let mut hour: u32 = 0;
        while hour < time_steps
            invariant
                hour <= time_steps,
                time_steps <= MAX_TIME_STEPS,
                s0.wf(),
                self.wf(),
                *self == s0.after_spec(hour as int),
                results@.len() == hour as int,
                forall|i: int| 0 <= i < hour as int ==> results@[i] == s0.combined_spec(i),
            decreases time_steps - hour,
        {
            proof {
                lemma_develop_ignores_intensity(
                    self.surface_anomaly,
                    s0.surface_anomaly,
                    hour as int,
                );
                lemma_develop_ignores_intensity(
                    self.altitude_anomaly,
                    s0.altitude_anomaly,
                    hour as int,
                );
            }
            let surface_result = self.surface_anomaly.develop_baroclinic_perturbation(hour);
            let altitude_result = self.altitude_anomaly.develop_baroclinic_perturbation(hour);

            let interaction_factor: i128 = if self.baroclinic_zone {
                1_500_000_000 + (hour as i128) * 62_500_000
            } else {
                SCALE
            };

            let sum_velocity: i128 = surface_result.vertical_velocity
                + altitude_result.vertical_velocity;
            let sum_vorticity: i128 = surface_result.relative_vorticity
                + altitude_result.relative_vorticity;
            let combined = DevelopmentResult {
                vertical_velocity: fp_mul(sum_velocity, interaction_factor),
                relative_vorticity: fp_mul(sum_vorticity, interaction_factor),
                hour,
            };
            proof {
                assert(combined == s0.combined_spec(hour as int));
            }
            results.push(combined);
            hour = hour + 1;
            proof {
                assert(*self == s0.after_spec(hour as int));
            }
        }
        proof {
            assert(results@ =~= s0.simulation_spec(time_steps as int));
        }
        results
    }
}

} // verus!
