//! Model-wide laws, stated over the specification functions that the
//! executable contracts are written in.

use vstd::prelude::*;
use crate::fixed::{SCALE, fp_mul_spec, fp_div_spec};
use crate::fixed::{
    lemma_fp_mul_bound, lemma_fp_mul_lower, lemma_fp_mul_one, lemma_fp_mul_neg,
    lemma_fp_div_bound, lemma_fp_div_lower, lemma_fp_div_neg,
};
use crate::approx::{sin_deg_spec, lemma_sin_deg_bounds, lemma_sin_deg_lower, lemma_sin_pole};
use crate::anomaly::{ThermalAnomaly, DevelopmentResult, intensity_spec, MAX_TIME_STEPS, INTENSITY_CAP};
use crate::cyclogenesis::{BaroclinicCyclogenesis, interaction_factor_spec};
use crate::position::LAT_BOUND;

verus! {

/// Determinism: the scenario a constructor builds is a function of its
/// inputs alone, and the result sequence is a function of the scenario and
/// the step count alone; two runs from identical inputs are therefore
/// identical bit for bit.
pub proof fn lemma_simulation_deterministic(
    surface_temp: i128,
    altitude_temp: i128,
    latitude: i128,
    n: int,
    r1: Seq<DevelopmentResult>,
    r2: Seq<DevelopmentResult>,
)
    requires
        r1 == BaroclinicCyclogenesis::init_spec(
            surface_temp,
            altitude_temp,
            latitude,
        ).simulation_spec(n),
        r2 == BaroclinicCyclogenesis::init_spec(
            surface_temp,
            altitude_temp,
            latitude,
        ).simulation_spec(n),
    ensures
        r1 == r2,
{
}

/// The time axis: record `i` of a simulation carries hour `i`, so hours
/// cover 0 to one less than the step count in strictly increasing order.
pub proof fn lemma_hours_strictly_increasing(
    c: BaroclinicCyclogenesis,
    n: int,
    i: int,
    j: int,
)
    requires
        0 <= i < j < n,
        n <= MAX_TIME_STEPS as int,
    ensures
        c.simulation_spec(n)[i].hour == i,
        c.simulation_spec(n)[i].hour < c.simulation_spec(n)[j].hour,
{
}

/// Interaction scaling: each combined record is exactly the sum of the two
/// per-anomaly records of that hour, scaled by the interaction factor.
pub proof fn lemma_interaction_scaling(c: BaroclinicCyclogenesis, hour: int)
    ensures
        c.combined_spec(hour).vertical_velocity == fp_mul_spec(
            c.surface_anomaly.develop_spec(hour).vertical_velocity
                + c.altitude_anomaly.develop_spec(hour).vertical_velocity,
            interaction_factor_spec(c.baroclinic_zone, hour),
        ) as i128,
        c.combined_spec(hour).relative_vorticity == fp_mul_spec(
            c.surface_anomaly.develop_spec(hour).relative_vorticity
                + c.altitude_anomaly.develop_spec(hour).relative_vorticity,
            interaction_factor_spec(c.baroclinic_zone, hour),
        ) as i128,
{
}

/// At the pole the model's sine is exactly one, so the Coriolis parameter
/// reaches its maximum: the full rotation rate.
pub proof fn lemma_coriolis_maximal_at_pole(a: ThermalAnomaly)
    requires
        a.wf(),
        a.position.latitude == LAT_BOUND,
    ensures
        a.coriolis_spec() == a.constants.earth_omega,
{
    lemma_sin_pole();
    lemma_fp_mul_one(a.constants.earth_omega as int);
}

/// Bounds on the thermal wind of any well-formed anomaly.
proof fn lemma_thermal_wind_bounds(a: ThermalAnomaly)
    requires
        a.wf(),
    ensures
        -125_000_000 <= a.thermal_wind_spec() <= 125_000_000,
        -72_921 <= a.coriolis_spec() <= 72_921,
{
    lemma_sin_deg_bounds(a.position.latitude as int);
    lemma_fp_mul_bound(
        a.constants.earth_omega as int,
        sin_deg_spec(a.position.latitude as int),
        72_921,
        SCALE as int,
    );
    assert(72_921int * (SCALE as int) == 72_921_000_000_000int) by (nonlinear_arith);
    let q = fp_div_spec(a.temperature_delta as int, a.constants.base_temp as int);
    lemma_fp_div_bound(
        a.temperature_delta as int,
        a.constants.base_temp as int,
        50_000_000_000int,
        288_150_000_000int,
    );
    assert(50_000_000_000int * (SCALE as int) == 50_000_000_000_000_000_000int)
        by (nonlinear_arith);
    lemma_fp_mul_bound(q, a.constants.gravity as int, 174_000_000, 9_810_000_000int);
    assert(174_000_000int * 9_810_000_000int == 1_706_940_000_000_000_000int)
        by (nonlinear_arith);
    lemma_fp_mul_bound(a.base_wind_spec(), a.coriolis_spec(), 1_710_000_000_000int, 72_921);
    assert(1_710_000_000_000int * 72_921int == 124_694_910_000_000_000int)
        by (nonlinear_arith);
}

/// For a pronounced anomaly (at least one kelvin either way) at least one
/// degree north, the thermal wind is positive and well clear of zero,
/// whatever the rotation sense.
proof fn lemma_thermal_wind_positive(a: ThermalAnomaly)
    requires
        a.wf(),
        a.temperature_delta >= SCALE || a.temperature_delta <= -SCALE,
        a.position.latitude >= SCALE,
    ensures
        19_000 <= a.thermal_wind_spec() <= 125_000_000,
{
    lemma_thermal_wind_bounds(a);
    lemma_sin_deg_lower(a.position.latitude as int);
    let sinv = sin_deg_spec(a.position.latitude as int);
    lemma_fp_mul_lower(a.constants.earth_omega as int, sinv, 72_921, 8_000_000);
    assert(72_921int * 8_000_000int == 583_368_000_000int) by (nonlinear_arith);
    let cor = a.coriolis_spec();
    assert(cor >= 583);

    let td = a.temperature_delta as int;
    let bt = a.constants.base_temp as int;
    let g = a.constants.gravity as int;
    assert((SCALE as int) * (SCALE as int) == 1_000_000_000_000_000_000int)
        by (nonlinear_arith);
    assert(3_400_000int * 9_810_000_000int == 33_354_000_000_000_000int) by (nonlinear_arith);
    assert(33_000_000_000int * 583int == 19_239_000_000_000int) by (nonlinear_arith);
    if td >= SCALE as int {
        lemma_fp_div_lower(td, bt, SCALE as int, 288_150_000_000int);
        let q = fp_div_spec(td, bt);
        assert(q >= 3_400_000);
        lemma_fp_mul_lower(q, g, 3_400_000, 9_810_000_000int);
        assert(a.base_wind_spec() >= 33_000_000_000int);
        lemma_fp_mul_lower(a.base_wind_spec(), cor, 33_000_000_000int, 583);
        assert(a.is_cyclonic);
    } else {
        let m = -td;
        lemma_fp_div_neg(m, bt);
        lemma_fp_div_lower(m, bt, SCALE as int, 288_150_000_000int);
        let qm = fp_div_spec(m, bt);
        assert(qm >= 3_400_000);
        let q = fp_div_spec(td, bt);
        assert(q == -qm);
        lemma_fp_mul_neg(qm, g);
        lemma_fp_mul_lower(qm, g, 3_400_000, 9_810_000_000int);
        let bwm = 1000 * fp_mul_spec(qm, g);
        assert(a.base_wind_spec() == -bwm);
        assert(bwm >= 33_000_000_000int);
        lemma_fp_mul_neg(bwm, cor);
        lemma_fp_mul_lower(bwm, cor, 33_000_000_000int, 583);
        assert(!a.is_cyclonic);
        assert(a.thermal_wind_spec() == fp_mul_spec(bwm, cor));
    }
}

/// Sign policy: a pronounced cyclonic anomaly develops strictly positive
/// relative vorticity at every admissible hour, and a pronounced
/// anticyclonic one strictly negative, at any pressure.  "Pronounced"
/// asks for at least one kelvin of perturbation and at least one degree of
/// northern latitude: with a vanishing perturbation or at the equator the
/// vorticity itself vanishes.
pub proof fn lemma_vorticity_sign(a: ThermalAnomaly, hour: int)
    requires
        a.wf(),
        a.temperature_delta >= SCALE || a.temperature_delta <= -SCALE,
        a.position.latitude >= SCALE,
        0 <= hour < MAX_TIME_STEPS as int,
    ensures
        a.is_cyclonic ==> a.develop_spec(hour).relative_vorticity > 0,
        !a.is_cyclonic ==> a.develop_spec(hour).relative_vorticity < 0,
{
    lemma_thermal_wind_positive(a);
    let w = a.thermal_wind_spec();

    let intensity = intensity_spec(hour);
    assert(hour * (SCALE as int) <= 999_999_000_000_000int);
    vstd::arithmetic::div_mod::lemma_div_is_ordered(
        hour * (SCALE as int),
        999_999_000_000_000int,
        12,
    );
    vstd::arithmetic::div_mod::lemma_div_pos_is_pos(hour * (SCALE as int), 12);
    assert((SCALE as int) <= intensity <= INTENSITY_CAP as int);

    let base = fp_div_spec(w, 500 * (SCALE as int));
    lemma_fp_div_lower(w, 500 * (SCALE as int), 19_000, 500_000_000_000int);
    assert(19_000int * (SCALE as int) == 19_000_000_000_000int) by (nonlinear_arith);
    lemma_fp_div_bound(w, 500 * (SCALE as int), 125_000_000, 500_000_000_000int);
    assert(125_000_000int * (SCALE as int) == 125_000_000_000_000_000int) by (nonlinear_arith);
    assert(38 <= base <= 250_000);

    let scaled = fp_mul_spec(base, intensity);
    lemma_fp_mul_lower(base, intensity, 38, SCALE as int);
    assert(38int * (SCALE as int) == 38_000_000_000int) by (nonlinear_arith);
    lemma_fp_mul_bound(base, intensity, 250_000, INTENSITY_CAP as int);
    assert(250_000int * (INTENSITY_CAP as int) == 21_000_000_000_000_000_000int)
        by (nonlinear_arith);
    assert(38 <= scaled <= 21_000_000_000int);
}

} // verus!
