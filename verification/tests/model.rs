//! End-to-end tests of the cyclogenesis model: validation, per-anomaly
//! development, and the interaction simulation.

use cyclogenesis::anomaly::ThermalAnomaly;
use cyclogenesis::constants::PhysicalConstants;
use cyclogenesis::cyclogenesis::BaroclinicCyclogenesis;
use cyclogenesis::error::MeteoError;
use cyclogenesis::fixed::{fp_mul, SCALE};
use cyclogenesis::position::Position;

#[test]
fn position_accepts_the_whole_documented_box() {
    // corners of the admissible box
    assert!(Position::new(-90 * SCALE, -400 * SCALE, 100 * SCALE).is_ok());
    assert!(Position::new(90 * SCALE, 20_000 * SCALE, 1_100 * SCALE).is_ok());
    assert!(Position::new(0, 0, 1_013 * SCALE).is_ok());
    let p = Position::new(45 * SCALE, 5_000 * SCALE, 500 * SCALE).unwrap();
    assert_eq!(p.latitude, 45 * SCALE);
    assert_eq!(p.altitude, 5_000 * SCALE);
    assert_eq!(p.pressure, 500 * SCALE);
}

#[test]
fn position_reports_the_first_violated_bound() {
    let lat_bad = 90 * SCALE + 1;
    assert_eq!(
        Position::new(lat_bad, 0, 1_013 * SCALE),
        Err(MeteoError::InvalidLatitude(lat_bad))
    );
    assert_eq!(
        Position::new(0, 20_001 * SCALE, 1_013 * SCALE),
        Err(MeteoError::InvalidAltitude(20_001 * SCALE))
    );
    assert_eq!(
        Position::new(0, 0, 99 * SCALE),
        Err(MeteoError::InvalidPressure(99 * SCALE))
    );
    // several fields invalid at once: latitude is checked first, then altitude
    assert_eq!(
        Position::new(-91 * SCALE, 30_000 * SCALE, 0),
        Err(MeteoError::InvalidLatitude(-91 * SCALE))
    );
    assert_eq!(
        Position::new(10 * SCALE, 30_000 * SCALE, 0),
        Err(MeteoError::InvalidAltitude(30_000 * SCALE))
    );
}

#[test]
fn anomaly_validation_and_rotation_sense() {
    let constants = PhysicalConstants::default();
    let position = Position::new(45 * SCALE, 0, 1_013 * SCALE).unwrap();

    let warm = ThermalAnomaly::new(5 * SCALE, position, constants).unwrap();
    assert!(warm.is_cyclonic);
    assert_eq!(warm.intensity, SCALE);

    let cold = ThermalAnomaly::new(-50 * SCALE, position, constants).unwrap();
    assert!(!cold.is_cyclonic);

    // a vanishing perturbation is anticyclonic by convention
    let flat = ThermalAnomaly::new(0, position, constants).unwrap();
    assert!(!flat.is_cyclonic);

    // the bounds themselves are admissible, one beyond is not
    assert!(ThermalAnomaly::new(50 * SCALE, position, constants).is_ok());
    assert_eq!(
        ThermalAnomaly::new(50 * SCALE + 1, position, constants),
        Err(MeteoError::InvalidTemperature(50 * SCALE + 1))
    );
    assert_eq!(
        ThermalAnomaly::new(-50 * SCALE - 1, position, constants),
        Err(MeteoError::InvalidTemperature(-50 * SCALE - 1))
    );
}

#[test]
fn scenario_validation_order_and_errors() {
    // invalid temperature: fails with exactly that value, nothing is built
    assert_eq!(
        BaroclinicCyclogenesis::new(60 * SCALE, -8 * SCALE, 45 * SCALE),
        Err(MeteoError::InvalidTemperature(60 * SCALE))
    );
    // latitude is checked before the temperatures
    assert_eq!(
        BaroclinicCyclogenesis::new(60 * SCALE, -8 * SCALE, 91 * SCALE),
        Err(MeteoError::InvalidLatitude(91 * SCALE))
    );
    // surface temperature is checked before the one aloft
    assert_eq!(
        BaroclinicCyclogenesis::new(51 * SCALE, 99 * SCALE, 45 * SCALE),
        Err(MeteoError::InvalidTemperature(51 * SCALE))
    );
    assert_eq!(
        BaroclinicCyclogenesis::new(5 * SCALE, 99 * SCALE, 45 * SCALE),
        Err(MeteoError::InvalidTemperature(99 * SCALE))
    );
}

#[test]
fn scenario_construction_fixes_the_two_positions() {
    let c = BaroclinicCyclogenesis::new(5 * SCALE, -8 * SCALE, 45 * SCALE).unwrap();
    assert!(c.baroclinic_zone);
    assert_eq!(c.surface_anomaly.position.altitude, 0);
    assert_eq!(c.surface_anomaly.position.pressure, 1_013 * SCALE);
    assert_eq!(c.altitude_anomaly.position.altitude, 5_000 * SCALE);
    assert_eq!(c.altitude_anomaly.position.pressure, 500 * SCALE);
    assert_eq!(c.surface_anomaly.position.latitude, 45 * SCALE);
    assert_eq!(c.altitude_anomaly.position.latitude, 45 * SCALE);
    assert!(c.surface_anomaly.is_cyclonic);
    assert!(!c.altitude_anomaly.is_cyclonic);
    // the constants are copied, not shared
    assert_eq!(c.surface_anomaly.constants, c.altitude_anomaly.constants);
}

#[test]
fn identical_inputs_give_bit_identical_sequences() {
    let mut c1 = BaroclinicCyclogenesis::new(5 * SCALE, -8 * SCALE, 45 * SCALE).unwrap();
    let mut c2 = BaroclinicCyclogenesis::new(5 * SCALE, -8 * SCALE, 45 * SCALE).unwrap();
    let r1 = c1.simulate_interaction(48);
    let r2 = c2.simulate_interaction(48);
    assert_eq!(r1, r2);
}

#[test]
fn simulation_yields_one_record_per_hour_in_order() {
    let mut c = BaroclinicCyclogenesis::new(5 * SCALE, -8 * SCALE, 45 * SCALE).unwrap();
    let results = c.simulate_interaction(24);
    assert_eq!(results.len(), 24);
    for (i, record) in results.iter().enumerate() {
        assert_eq!(record.hour as usize, i);
    }
    // a zero-step simulation yields nothing
    let mut c0 = BaroclinicCyclogenesis::new(5 * SCALE, -8 * SCALE, 45 * SCALE).unwrap();
    assert_eq!(c0.simulate_interaction(0).len(), 0);
}

#[test]
fn vorticity_sign_follows_the_rotation_sense() {
    let constants = PhysicalConstants::default();
    let surface = Position::new(45 * SCALE, 0, 1_013 * SCALE).unwrap();

    // purely cyclonic surface anomaly: strictly positive vorticity at hour 0
    let mut warm = ThermalAnomaly::new(5 * SCALE, surface, constants).unwrap();
    let r = warm.develop_baroclinic_perturbation(0);
    assert_eq!(warm.intensity, SCALE); // intensity 1 at hour 0
    assert!(r.relative_vorticity > 0);

    // anticyclonic: strictly negative
    let mut cold = ThermalAnomaly::new(-5 * SCALE, surface, constants).unwrap();
    let r = cold.develop_baroclinic_perturbation(0);
    assert!(r.relative_vorticity < 0);
}

#[test]
fn development_updates_intensity_from_the_hour() {
    let constants = PhysicalConstants::default();
    let surface = Position::new(45 * SCALE, 0, 1_013 * SCALE).unwrap();
    let mut a = ThermalAnomaly::new(5 * SCALE, surface, constants).unwrap();
    a.develop_baroclinic_perturbation(5);
    // 1 + 5/12, truncated to nano units
    assert_eq!(a.intensity, SCALE + 5_000_000_000 / 12);
    a.develop_baroclinic_perturbation(24);
    assert_eq!(a.intensity, 3 * SCALE);
}

#[test]
fn interaction_scales_the_summed_rates_exactly() {
    let mut c = BaroclinicCyclogenesis::new(5 * SCALE, -8 * SCALE, 45 * SCALE).unwrap();
    let combined = c.simulate_interaction(3);

    // reconstruct each record from two fresh anomalies stepped directly
    let constants = PhysicalConstants::default();
    let surface_position = Position::new(45 * SCALE, 0, 1_013 * SCALE).unwrap();
    let altitude_position = Position::new(45 * SCALE, 5_000 * SCALE, 500 * SCALE).unwrap();
    let mut surface = ThermalAnomaly::new(5 * SCALE, surface_position, constants).unwrap();
    let mut aloft = ThermalAnomaly::new(-8 * SCALE, altitude_position, constants).unwrap();

    for hour in 0..3u32 {
        let s = surface.develop_baroclinic_perturbation(hour);
        let a = aloft.develop_baroclinic_perturbation(hour);
        let factor = 1_500_000_000 + (hour as i128) * 62_500_000;
        let expected_velocity = fp_mul(s.vertical_velocity + a.vertical_velocity, factor);
        let expected_vorticity = fp_mul(s.relative_vorticity + a.relative_vorticity, factor);
        let record = combined[hour as usize];
        assert_eq!(record.vertical_velocity, expected_velocity);
        assert_eq!(record.relative_vorticity, expected_vorticity);
        assert_eq!(record.hour, hour);
    }
}

#[test]
fn reference_scenario_at_forty_five_degrees() {
    let mut c = BaroclinicCyclogenesis::new(5 * SCALE, -8 * SCALE, 45 * SCALE).unwrap();
    let results = c.simulate_interaction(24);
    assert_eq!(results.len(), 24);

    // hand-computed hour-0 vorticities: the surface thermal wind is
    // 0.008761931 (5/288.15*9.81*1000 times omega*sin45), over 500 and
    // truncated that is 17523; aloft -8 K gives -28038; summed and scaled
    // by 1.5 that is -15772.
    let constants = PhysicalConstants::default();
    let surface_position = Position::new(45 * SCALE, 0, 1_013 * SCALE).unwrap();
    let mut surface = ThermalAnomaly::new(5 * SCALE, surface_position, constants).unwrap();
    let s0 = surface.develop_baroclinic_perturbation(0);
    assert_eq!(s0.relative_vorticity, 17_523);

    assert_eq!(results[0].relative_vorticity, -15_772);
    assert_eq!(results[0].hour, 0);

    // the hour-0 record also matches a direct reconstruction
    let altitude_position = Position::new(45 * SCALE, 5_000 * SCALE, 500 * SCALE).unwrap();
    let mut aloft = ThermalAnomaly::new(-8 * SCALE, altitude_position, constants).unwrap();
    let a0 = aloft.develop_baroclinic_perturbation(0);
    assert_eq!(a0.relative_vorticity, -28_038);
    assert_eq!(
        results[0].vertical_velocity,
        fp_mul(s0.vertical_velocity + a0.vertical_velocity, 1_500_000_000)
    );
}

#[test]
fn pole_scenario_succeeds_with_maximal_coriolis() {
    let mut c = BaroclinicCyclogenesis::new(5 * SCALE, -8 * SCALE, 90 * SCALE).unwrap();
    // sine is exactly one at the pole, so the Coriolis parameter is the
    // full rotation rate
    assert_eq!(c.surface_anomaly.compute_coriolis_force(), 72_921);
    let results = c.simulate_interaction(24);
    assert_eq!(results.len(), 24);
    // every record carries finite, in-range values; the cyclonic surface
    // anomaly dominates checks of basic sanity
    for record in &results {
        assert!(record.vertical_velocity.abs() < 1_000_000_000_000_000);
        assert!(record.relative_vorticity.abs() < 1_000_000_000_000_000);
    }
}

#[test]
fn pressure_boundary_at_exactly_500_hpa() {
    // The thermal wind does not depend on pressure, so the vorticity
    // doubling below 500 hPa can be observed in isolation: exactly 500 hPa
    // takes the undoubled branch, one unit below doubles.
    let constants = PhysicalConstants::default();
    let at = Position::new(45 * SCALE, 0, 500 * SCALE).unwrap();
    let below = Position::new(45 * SCALE, 0, 500 * SCALE - 1).unwrap();
    let above = Position::new(45 * SCALE, 0, 500 * SCALE + 1).unwrap();

    let mut a_at = ThermalAnomaly::new(5 * SCALE, at, constants).unwrap();
    let mut a_below = ThermalAnomaly::new(5 * SCALE, below, constants).unwrap();
    let mut a_above = ThermalAnomaly::new(5 * SCALE, above, constants).unwrap();
    let r_at = a_at.develop_baroclinic_perturbation(0);
    let r_below = a_below.develop_baroclinic_perturbation(0);
    let r_above = a_above.develop_baroclinic_perturbation(0);

    assert_eq!(r_below.relative_vorticity, 2 * r_at.relative_vorticity);
    assert_eq!(r_above.relative_vorticity, r_at.relative_vorticity);

    // the vertical velocity flips sign at and below 500 hPa: for this warm
    // anomaly it is positive above the boundary and negative at it
    assert!(r_above.vertical_velocity > 0);
    assert!(r_at.vertical_velocity < 0);
    assert!(r_below.vertical_velocity < 0);
}
