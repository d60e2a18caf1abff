//! Verified calibration and aggregation core for a six-axis inertial sensor.
//!
//! Sensor values are fixed-point integers (thousandths of the channel's
//! native unit), so every mean and variance in the core is exact.  The bus
//! is modelled by [`SensorLink`], a deterministic script of per-channel read
//! outcomes: the averaging, bias-calibration, variance-estimation and
//! measurement-assembly logic is verified against that model, and the
//! surrounding program feeds it the raw hardware readings.  The library
//! also provides the exact wire-format encoder for one measurement and the
//! parser for the datagram destination.

use vstd::prelude::*;

mod averager;
mod calib;
mod driver;
mod endpoint;
mod error;
mod json;
mod link;
mod measurement;
mod stats;
mod vector;

pub use averager::{average_accel, average_angles, average_gyro, average_temp};
pub use calib::{calc_variance, soft_calibrate, Bias, CalibrationResult, Variance, VarianceVector};
pub use driver::{Phase, PhaseAction};
pub use endpoint::{parse_endpoint, Endpoint};
pub use error::SensorError;
pub use json::encode_measurement;
pub use link::SensorLink;
pub use measurement::{build, Measurement, MEAS_LIMIT};
pub use stats::MAX_STAT_SAMPLES;
pub use vector::{RollPitch, ThreeVector, FIXED_SCALE, VAL_LIMIT};

verus! {

} // verus!
