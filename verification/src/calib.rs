//! Calibration: one-time bias estimation and variance estimation.
//!
//! Both passes assume a stationary, level device (a precondition asserted by
//! convention, not checked here) and run once, before steady-state sampling.
//! Bias is the truncated per-axis mean of a batch of gyro and accelerometer
//! readings; variance is the Bessel-corrected per-axis sample variance of a
//! second, independent, bias-corrected batch.

use vstd::prelude::*;
use crate::averager::{
    batch_result, batch_steps, component_x, component_y, component_z, mean_vec3,
    read_accel_batch, read_gyro_batch,
};
use crate::error::SensorError;
use crate::link::{same_angle, same_core, same_temp, SensorLink};
use crate::stats::{mean_of, variance_of, variance_fixed, MAX_STAT_SAMPLES};
use crate::vector::ThreeVector;

verus! {

/// Per-axis offset corrections, subtracted from every later raw reading of
/// the corresponding channel.
#[derive(Clone, Copy, Debug, PartialEq, Eq, Structural)]
pub struct Bias {
    pub gyro: ThreeVector,
    pub accel: ThreeVector,
}

impl Bias {
    /// Both correction vectors lie within the channel bound.
    pub open spec fn in_range(self) -> bool {
        self.gyro.in_range() && self.accel.in_range()
    }

    /// The zero correction: raw readings pass through unchanged.
    pub fn zero() -> (r: Bias)
        ensures
            r == (Bias {
                gyro: ThreeVector { x: 0, y: 0, z: 0 },
                accel: ThreeVector { x: 0, y: 0, z: 0 },
            }),
            r.in_range(),
    {
        Bias { gyro: ThreeVector { x: 0, y: 0, z: 0 }, accel: ThreeVector { x: 0, y: 0, z: 0 } }
    }
}

/// Per-axis sample variances of one calibration batch; diagnostic only.
#[derive(Clone, Copy, Debug, PartialEq, Eq, Structural)]
pub struct VarianceVector {
    pub x: i128,
    pub y: i128,
    pub z: i128,
}

/// Variance estimates for the two corrected channels.
#[derive(Clone, Copy, Debug, PartialEq, Eq, Structural)]
pub struct Variance {
    pub gyro: VarianceVector,
    pub accel: VarianceVector,
}

/// Everything one calibration session produces, immutable afterward.
#[derive(Clone, Copy, Debug, PartialEq, Eq, Structural)]
pub struct CalibrationResult {
    pub bias: Bias,
    pub variance: Variance,
}

/// The truncated per-axis mean of a batch of vector readings.
pub open spec fn mean_vec3_spec(vs: Seq<ThreeVector>) -> ThreeVector {
    ThreeVector {
        x: mean_of(vs.map_values(|t: ThreeVector| t.x as int)) as i64,
        y: mean_of(vs.map_values(|t: ThreeVector| t.y as int)) as i64,
        z: mean_of(vs.map_values(|t: ThreeVector| t.z as int)) as i64,
    }
}

/// What a bias-estimation pass of `n` samples returns on a given link state:
/// the per-axis means of the gyro and accelerometer batches, or the first
/// error met (gyro batch first).
pub open spec fn calib_outcome(link: SensorLink, n: nat) -> Result<Bias, SensorError> {
    let gres = batch_result(link.gyro_script@, link.gyro_pos as int, n);
    let ares = batch_result(link.accel_script@, link.accel_pos as int, n);
    if gres is Err {
        Err(gres->Err_0)
    } else if ares is Err {
        Err(ares->Err_0)
    } else {
        Ok(Bias { gyro: mean_vec3_spec(gres->Ok_0), accel: mean_vec3_spec(ares->Ok_0) })
    }
}

/// Bias estimation is deterministic: two calibration passes whose upcoming
/// gyro and accelerometer streams read identically yield identical outcomes,
/// whatever else the two link states hold.
pub proof fn lemma_calibration_idempotent(l1: SensorLink, l2: SensorLink, n: nat)
    requires
        batch_result(l1.gyro_script@, l1.gyro_pos as int, n) == batch_result(
            l2.gyro_script@,
            l2.gyro_pos as int,
            n,
        ),
        batch_result(l1.accel_script@, l1.accel_pos as int, n) == batch_result(
            l2.accel_script@,
            l2.accel_pos as int,
            n,
        ),
    ensures
        calib_outcome(l1, n) == calib_outcome(l2, n),
{
}

/// Bias estimation (soft calibration): take `samples` consecutive gyro and
/// accelerometer readings and store their truncated per-axis means as the
/// bias.  Fails fast with the first read error; on failure no bias is
/// produced and calibration counts as not performed.
pub fn soft_calibrate(link: &mut SensorLink, samples: usize) -> (r: Result<Bias, SensorError>)
    requires
        old(link).wf(),
        old(link).initialized,
        samples >= 1,
    ensures
        final(link).wf(),
        same_core(*old(link), *final(link)),
        same_angle(*old(link), *final(link)),
        same_temp(*old(link), *final(link)),
        final(link).gyro_script@ == old(link).gyro_script@,
        final(link).accel_script@ == old(link).accel_script@,
        r == calib_outcome(*old(link), samples as nat),
        r matches Ok(b) ==> b.in_range(),
        final(link).gyro_pos == old(link).gyro_pos + batch_steps(
            old(link).gyro_script@,
            old(link).gyro_pos as int,
            samples as nat,
        ),
        batch_result(old(link).gyro_script@, old(link).gyro_pos as int, samples as nat) is Ok
            ==> final(link).accel_pos == old(link).accel_pos + batch_steps(
            old(link).accel_script@,
            old(link).accel_pos as int,
            samples as nat,
        ),
        batch_result(old(link).gyro_script@, old(link).gyro_pos as int, samples as nat) is Err
            ==> final(link).accel_pos == old(link).accel_pos,
{
    let gyro_batch = match read_gyro_batch(link, samples) {
        Ok(b) => b,
        Err(e) => {
            return Err(e);
        },
    };
    let accel_batch = match read_accel_batch(link, samples) {
        Ok(b) => b,
        Err(e) => {
            return Err(e);
        },
    };
    let gyro_mean = mean_vec3(&gyro_batch);
    let accel_mean = mean_vec3(&accel_batch);
    Ok(Bias { gyro: gyro_mean, accel: accel_mean })
}

/// The per-axis Bessel-corrected sample variance of a batch of vector
/// readings after subtracting a bias vector.
pub open spec fn variance_vec3_spec(vs: Seq<ThreeVector>, b: ThreeVector) -> VarianceVector {
    VarianceVector {
        x: variance_of(vs.map_values(|t: ThreeVector| t.x - b.x)) as i128,
        y: variance_of(vs.map_values(|t: ThreeVector| t.y - b.y)) as i128,
        z: variance_of(vs.map_values(|t: ThreeVector| t.z - b.z)) as i128,
    }
}

/// What a variance-estimation pass of `n` samples returns on a given link
/// state with a given bias: the per-axis sample variances of the corrected
/// gyro and accelerometer batches, or the first error met (gyro batch first).
pub open spec fn variance_outcome(link: SensorLink, bias: Bias, n: nat) -> Result<
    Variance,
    SensorError,
> {
    let gres = batch_result(link.gyro_script@, link.gyro_pos as int, n);
    let ares = batch_result(link.accel_script@, link.accel_pos as int, n);
    if gres is Err {
        Err(gres->Err_0)
    } else if ares is Err {
        Err(ares->Err_0)
    } else {
        Ok(Variance {
            gyro: variance_vec3_spec(gres->Ok_0, bias.gyro),
            accel: variance_vec3_spec(ares->Ok_0, bias.accel),
        })
    }
}

/// Variance estimation of a constant-valued stream yields exactly zero on
/// every axis, whatever bias is subtracted.
pub proof fn lemma_variance_of_constant_stream(vs: Seq<ThreeVector>, b: ThreeVector, c: ThreeVector)
    requires
        vs.len() >= 2,
        forall|i: int| 0 <= i < vs.len() ==> #[trigger] vs[i] == c,
    ensures
        variance_vec3_spec(vs, b) == (VarianceVector { x: 0, y: 0, z: 0 }),
{
    crate::stats::lemma_variance_const(vs.map_values(|t: ThreeVector| t.x - b.x), c.x - b.x);
    crate::stats::lemma_variance_const(vs.map_values(|t: ThreeVector| t.y - b.y), c.y - b.y);
    crate::stats::lemma_variance_const(vs.map_values(|t: ThreeVector| t.z - b.z), c.z - b.z);
}

/// Subtract a constant offset from every sample.
#[verifier::loop_isolation(false)]
fn shift_by(vals: &Vec<i64>, c: i64) -> (r: Vec<i64>)
    requires
        forall|i: int| 0 <= i < vals@.len() ==> crate::vector::scalar_in_range(
            #[trigger] vals@[i],
        ),
        crate::vector::scalar_in_range(c),
    ensures
        r@.len() == vals@.len(),
        forall|i: int| 0 <= i < r@.len() ==> #[trigger] r@[i] == vals@[i] - c,
{
    let mut out: Vec<i64> = Vec::new();
    let mut i: usize = 0;
    while i < vals.len()
        invariant
            0 <= i <= vals@.len(),
            out@.len() == i,
            forall|j: int| 0 <= j < i ==> #[trigger] out@[j] == vals@[j] - c,
        decreases vals@.len() - i,
    {
        out.push(vals[i] - c);
        i = i + 1;
    }
    out
}

/// Variance of one axis of a batch after subtracting a constant offset.
fn axis_variance(axis_vals: &Vec<i64>, c: i64) -> (v: i128)
    requires
        2 <= axis_vals@.len() <= MAX_STAT_SAMPLES,
        crate::vector::scalar_in_range(c),
        forall|i: int| 0 <= i < axis_vals@.len() ==> crate::vector::scalar_in_range(
            #[trigger] axis_vals@[i],
        ),
    ensures
        v == variance_of(Seq::new(axis_vals@.len(), |i: int| axis_vals@[i] - c)),
{
    let shifted = shift_by(axis_vals, c);
    let v = variance_fixed(&shifted);
    proof {
        assert(shifted@.map_values(|x: i64| x as int) =~= Seq::new(
            axis_vals@.len(),
            |i: int| axis_vals@[i] - c,
        ));
    }
    v
}

/// Variance estimation: take a second batch of `samples` gyro and
/// accelerometer readings, subtract the stored bias, and return the
/// Bessel-corrected per-axis sample variance.  Diagnostic only; fails fast
/// with the first read error.
pub fn calc_variance(link: &mut SensorLink, bias: &Bias, samples: usize) -> (r: Result<
    Variance,
    SensorError,
>)
    requires
        old(link).wf(),
        old(link).initialized,
        bias.in_range(),
        2 <= samples <= MAX_STAT_SAMPLES,
    ensures
        final(link).wf(),
        same_core(*old(link), *final(link)),
        same_angle(*old(link), *final(link)),
        same_temp(*old(link), *final(link)),
        final(link).gyro_script@ == old(link).gyro_script@,
        final(link).accel_script@ == old(link).accel_script@,
        r == variance_outcome(*old(link), *bias, samples as nat),
        final(link).gyro_pos == old(link).gyro_pos + batch_steps(
            old(link).gyro_script@,
            old(link).gyro_pos as int,
            samples as nat,
        ),
        batch_result(old(link).gyro_script@, old(link).gyro_pos as int, samples as nat) is Ok
            ==> final(link).accel_pos == old(link).accel_pos + batch_steps(
            old(link).accel_script@,
            old(link).accel_pos as int,
            samples as nat,
        ),
        batch_result(old(link).gyro_script@, old(link).gyro_pos as int, samples as nat) is Err
            ==> final(link).accel_pos == old(link).accel_pos,
{
    let gyro_batch = match read_gyro_batch(link, samples) {
        Ok(b) => b,
        Err(e) => {
            return Err(e);
        },
    };
    let accel_batch = match read_accel_batch(link, samples) {
        Ok(b) => b,
        Err(e) => {
            return Err(e);
        },
    };
    let gv = corrected_variance(&gyro_batch, &bias.gyro);
    let av = corrected_variance(&accel_batch, &bias.accel);
    Ok(Variance { gyro: gv, accel: av })
}

/// Per-axis variance of a batch after bias correction.
fn corrected_variance(batch: &Vec<ThreeVector>, b: &ThreeVector) -> (v: VarianceVector)
    requires
        2 <= batch@.len() <= MAX_STAT_SAMPLES,
        crate::averager::vec3_seq_in_range(batch@),
        b.in_range(),
    ensures
        v == variance_vec3_spec(batch@, *b),
{
    let xs = component_x(batch);
    let ys = component_y(batch);
    let zs = component_z(batch);
    let vx = axis_variance(&xs, b.x);
    let vy = axis_variance(&ys, b.y);
    let vz = axis_variance(&zs, b.z);
    proof {
        assert(Seq::new(xs@.len(), |i: int| xs@[i] - b.x) =~= batch@.map_values(
            |t: ThreeVector| t.x - b.x,
        ));
        assert(Seq::new(ys@.len(), |i: int| ys@[i] - b.y) =~= batch@.map_values(
            |t: ThreeVector| t.y - b.y,
        ));
        assert(Seq::new(zs@.len(), |i: int| zs@[i] - b.z) =~= batch@.map_values(
            |t: ThreeVector| t.z - b.z,
        ));
    }
    VarianceVector { x: vx, y: vy, z: vz }
}

} // verus!
