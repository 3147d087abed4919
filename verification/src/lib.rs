//! A deterministic, exact-arithmetic toy model of baroclinic cyclogenesis.
//!
//! Two thermal anomalies (one at the surface, one aloft) sit at a fixed
//! latitude.  Each hour the model derives, for each anomaly, an induced
//! vertical velocity and a relative vorticity, and then combines the two
//! into one interaction record scaled by a time-growing factor.
//!
//! Every physical quantity is carried in nano-scale fixed point: an `i128`
//! holding the value times one billion.  All arithmetic is exact integer
//! arithmetic, so a simulation is reproducible bit for bit, and every
//! operation is verified free of overflow.

pub mod fixed;
pub mod approx;
pub mod error;
pub mod constants;
pub mod position;
pub mod anomaly;
pub mod cyclogenesis;
pub mod laws;
