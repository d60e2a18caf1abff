//! Assembling one complete measurement from the four channels.
//!
//! A build attempts all four channel reads in a fixed order (angles,
//! temperature, gyro, accelerometer), raw or averaged, applies the stored
//! bias to gyro and accelerometer, and fails as a whole on the first read
//! error: a partially populated measurement is never produced.

use vstd::prelude::*;
use crate::averager::{
    average_accel, average_angles, average_gyro, average_temp, batch_result, batch_steps,
    lemma_batch_single,
};
use crate::calib::{mean_vec3_spec, Bias};
use crate::error::SensorError;
use crate::link::{read_at, same_core, SensorLink};
use crate::stats::{lemma_mean_single, mean_of};
use crate::vector::{RollPitch, ThreeVector, VAL_LIMIT};

verus! {

/// Bound on every field of a built measurement: a bias-corrected reading is
/// at most twice the channel bound in magnitude.
pub const MEAS_LIMIT: i64 = 2_000_000_000;

/// One complete snapshot of the sensor state.
#[derive(Clone, Copy, Debug, PartialEq, Eq, Structural)]
pub struct Measurement {
    pub roll: i64,
    pub pitch: i64,
    pub temp: i64,
    pub gyro: ThreeVector,
    pub acc: ThreeVector,
}

/// A scalar measurement field lies within the corrected-reading bound.
pub open spec fn meas_scalar_ok(v: i64) -> bool {
    -MEAS_LIMIT <= v <= MEAS_LIMIT
}

impl Measurement {
    /// Every field lies within the corrected-reading bound.
    pub open spec fn wf(self) -> bool {
        &&& meas_scalar_ok(self.roll)
        &&& meas_scalar_ok(self.pitch)
        &&& meas_scalar_ok(self.temp)
        &&& meas_scalar_ok(self.gyro.x) && meas_scalar_ok(self.gyro.y) && meas_scalar_ok(
            self.gyro.z,
        )
        &&& meas_scalar_ok(self.acc.x) && meas_scalar_ok(self.acc.y) && meas_scalar_ok(
            self.acc.z,
        )
    }
}

/// Component-wise difference of two in-range vectors.
pub open spec fn vec3_minus(a: ThreeVector, b: ThreeVector) -> ThreeVector {
    ThreeVector { x: (a.x - b.x) as i64, y: (a.y - b.y) as i64, z: (a.z - b.z) as i64 }
}

/// How many raw reads one channel contributes to a build.
pub open spec fn sample_count(averaging: Option<usize>) -> nat {
    match averaging {
        Some(k) => k as nat,
        None => 1nat,
    }
}

/// What a build returns on a given link state: the assembled measurement if
/// every channel batch succeeds, otherwise the first error in channel order
/// (angles, temperature, gyro, accelerometer).
pub open spec fn build_outcome(link: SensorLink, bias: Bias, n: nat) -> Result<
    Measurement,
    SensorError,
> {
    let ares = batch_result(link.angle_script@, link.angle_pos as int, n);
    let tres = batch_result(link.temp_script@, link.temp_pos as int, n);
    let gres = batch_result(link.gyro_script@, link.gyro_pos as int, n);
    let cres = batch_result(link.accel_script@, link.accel_pos as int, n);
    if ares is Err {
        Err(ares->Err_0)
    } else if tres is Err {
        Err(tres->Err_0)
    } else if gres is Err {
        Err(gres->Err_0)
    } else if cres is Err {
        Err(cres->Err_0)
    } else {
        Ok(
            Measurement {
                roll: mean_of(ares->Ok_0.map_values(|a: RollPitch| a.roll as int)) as i64,
                pitch: mean_of(ares->Ok_0.map_values(|a: RollPitch| a.pitch as int)) as i64,
                temp: mean_of(tres->Ok_0.map_values(|t: i64| t as int)) as i64,
                gyro: vec3_minus(mean_vec3_spec(gres->Ok_0), bias.gyro),
                acc: vec3_minus(mean_vec3_spec(cres->Ok_0), bias.accel),
            },
        )
    }
}

/// A build succeeds exactly when all four channel batches succeed: one
/// failing channel fails the whole build, and a measurement with some
/// fields populated and others defaulted is never produced.
pub proof fn lemma_build_fails_whole(link: SensorLink, bias: Bias, n: nat)
    ensures
        build_outcome(link, bias, n) is Ok <==> {
            &&& batch_result(link.angle_script@, link.angle_pos as int, n) is Ok
            &&& batch_result(link.temp_script@, link.temp_pos as int, n) is Ok
            &&& batch_result(link.gyro_script@, link.gyro_pos as int, n) is Ok
            &&& batch_result(link.accel_script@, link.accel_pos as int, n) is Ok
        },
{
}

/// Build one measurement: attempt all four channel reads (raw if
/// `averaging` is absent, averaged over that many samples otherwise), apply
/// the stored bias to gyro and accelerometer, and fail as a whole on the
/// first read error.
pub fn build(link: &mut SensorLink, bias: &Bias, averaging: Option<usize>) -> (r: Result<
    Measurement,
    SensorError,
>)
    requires
        old(link).wf(),
        old(link).initialized,
        bias.in_range(),
        averaging matches Some(k) ==> k >= 1,
    ensures
        final(link).wf(),
        same_core(*old(link), *final(link)),
        final(link).angle_script@ == old(link).angle_script@,
        final(link).temp_script@ == old(link).temp_script@,
        final(link).gyro_script@ == old(link).gyro_script@,
        final(link).accel_script@ == old(link).accel_script@,
        r == build_outcome(*old(link), *bias, sample_count(averaging)),
        r matches Ok(m) ==> m.wf(),
        ({
            let n = sample_count(averaging);
            let ares = batch_result(old(link).angle_script@, old(link).angle_pos as int, n);
            let tres = batch_result(old(link).temp_script@, old(link).temp_pos as int, n);
            let gres = batch_result(old(link).gyro_script@, old(link).gyro_pos as int, n);
            &&& final(link).angle_pos == old(link).angle_pos + batch_steps(
                old(link).angle_script@,
                old(link).angle_pos as int,
                n,
            )
            &&& (ares is Err ==> final(link).temp_pos == old(link).temp_pos
                && final(link).gyro_pos == old(link).gyro_pos
                && final(link).accel_pos == old(link).accel_pos)
            &&& (ares is Ok ==> final(link).temp_pos == old(link).temp_pos + batch_steps(
                old(link).temp_script@,
                old(link).temp_pos as int,
                n,
            ))
            &&& (ares is Ok && tres is Err ==> final(link).gyro_pos == old(link).gyro_pos
                && final(link).accel_pos == old(link).accel_pos)
            &&& (ares is Ok && tres is Ok ==> final(link).gyro_pos == old(link).gyro_pos
                + batch_steps(old(link).gyro_script@, old(link).gyro_pos as int, n))
            &&& (ares is Ok && tres is Ok && gres is Err
                ==> final(link).accel_pos == old(link).accel_pos)
            &&& (ares is Ok && tres is Ok && gres is Ok
                ==> final(link).accel_pos == old(link).accel_pos + batch_steps(
                old(link).accel_script@,
                old(link).accel_pos as int,
                n,
            ))
        }),
{
    match averaging {
        Some(k) => {
            let rp = match average_angles(link, k) {
                Ok(v) => v,
                Err(e) => {
                    return Err(e);
                },
            };
            let t = match average_temp(link, k) {
                Ok(v) => v,
                Err(e) => {
                    return Err(e);
                },
            };
            let g = match average_gyro(link, k) {
                Ok(v) => v,
                Err(e) => {
                    return Err(e);
                },
            };
            let c = match average_accel(link, k) {
                Ok(v) => v,
                Err(e) => {
                    return Err(e);
                },
            };
            Ok(
                Measurement {
                    roll: rp.roll,
                    pitch: rp.pitch,
                    temp: t,
                    gyro: g.minus(bias.gyro),
                    acc: c.minus(bias.accel),
                },
            )
        },
        None => {
            proof {
                lemma_batch_single(old(link).angle_script@, old(link).angle_pos as int);
                lemma_batch_single(old(link).temp_script@, old(link).temp_pos as int);
                lemma_batch_single(old(link).gyro_script@, old(link).gyro_pos as int);
                lemma_batch_single(old(link).accel_script@, old(link).accel_pos as int);
            }
            let rp = match link.read_angles() {
                Ok(v) => v,
                Err(e) => {
                    return Err(e);
                },
            };
            proof {
                assert(seq![rp].map_values(|a: RollPitch| a.roll as int) =~= seq![
                    rp.roll as int,
                ]);
                assert(seq![rp].map_values(|a: RollPitch| a.pitch as int) =~= seq![
                    rp.pitch as int,
                ]);
                lemma_mean_single(seq![rp.roll as int]);
                lemma_mean_single(seq![rp.pitch as int]);
            }
            let t = match link.read_temperature() {
                Ok(v) => v,
                Err(e) => {
                    return Err(e);
                },
            };
            proof {
                assert(seq![t].map_values(|x: i64| x as int) =~= seq![t as int]);
                lemma_mean_single(seq![t as int]);
            }
            let g = match link.read_gyro() {
                Ok(v) => v,
                Err(e) => {
                    return Err(e);
                },
            };
            proof {
                assert(seq![g].map_values(|v: ThreeVector| v.x as int) =~= seq![g.x as int]);
                assert(seq![g].map_values(|v: ThreeVector| v.y as int) =~= seq![g.y as int]);
                assert(seq![g].map_values(|v: ThreeVector| v.z as int) =~= seq![g.z as int]);
                lemma_mean_single(seq![g.x as int]);
                lemma_mean_single(seq![g.y as int]);
                lemma_mean_single(seq![g.z as int]);
            }
            let c = match link.read_accel() {
                Ok(v) => v,
                Err(e) => {
                    return Err(e);
                },
            };
            proof {
                assert(seq![c].map_values(|v: ThreeVector| v.x as int) =~= seq![c.x as int]);
                assert(seq![c].map_values(|v: ThreeVector| v.y as int) =~= seq![c.y as int]);
                assert(seq![c].map_values(|v: ThreeVector| v.z as int) =~= seq![c.z as int]);
                lemma_mean_single(seq![c.x as int]);
                lemma_mean_single(seq![c.y as int]);
                lemma_mean_single(seq![c.z as int]);
            }
            Ok(
                Measurement {
                    roll: rp.roll,
                    pitch: rp.pitch,
                    temp: t,
                    gyro: g.minus(bias.gyro),
                    acc: c.minus(bias.accel),
                },
            )
        },
    }
}

} // verus!
