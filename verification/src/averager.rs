//! Multi-sample averaging over one channel of the sensor link.
//!
//! An averaging read takes `samples` consecutive single-shot reads,
//! fails fast on the first error (partial data is discarded, never
//! substituted), and otherwise returns the exact truncated per-component
//! mean of the batch.

use vstd::prelude::*;
use crate::error::SensorError;
use crate::link::{read_at, same_accel, same_angle, same_core, same_gyro, same_temp, SensorLink};
use crate::stats::{mean_of, mean_fixed};
use crate::vector::{RollPitch, ThreeVector, scalar_in_range};

verus! {

/// Every read in the half-open position window `[pos, pos + n)` succeeds.
pub open spec fn window_ok<T>(script: Seq<Result<T, SensorError>>, pos: int, n: int) -> bool {
    forall|j: int| pos <= j < pos + n ==> (#[trigger] read_at(script, j)) is Ok
}

/// The successful readings of the window `[pos, pos + n)`, in script order.
pub open spec fn window_vals<T>(script: Seq<Result<T, SensorError>>, pos: int, n: nat) -> Seq<
    T,
> {
    Seq::new(n, |j: int| read_at(script, pos + j)->Ok_0)
}

/// What a fail-fast batch of `n` reads starting at `pos` returns: the window
/// of readings if every read succeeds, otherwise the first error met.
pub open spec fn batch_result<T>(
    script: Seq<Result<T, SensorError>>,
    pos: int,
    n: nat,
) -> Result<Seq<T>, SensorError>
    decreases n,
{
    if n == 0 {
        Ok(Seq::empty())
    } else {
        match read_at(script, pos) {
            Err(e) => Err(e),
            Ok(v) => match batch_result(script, pos + 1, (n - 1) as nat) {
                Err(e) => Err(e),
                Ok(rest) => Ok(seq![v] + rest),
            },
        }
    }
}

/// How many scripted entries a fail-fast batch of `n` reads consumes: one per
/// successful read, one for a scripted error, none for reads past the end of
/// the script.
pub open spec fn batch_steps<T>(script: Seq<Result<T, SensorError>>, pos: int, n: nat) -> int
    decreases n,
{
    if n == 0 {
        0
    } else if !(0 <= pos < script.len()) {
        0
    } else if script[pos] is Err {
        1
    } else {
        1 + batch_steps(script, pos + 1, (n - 1) as nat)
    }
}

/// A batch over an all-successful window returns exactly that window and
/// consumes exactly `n` entries.
pub proof fn lemma_batch_ok<T>(script: Seq<Result<T, SensorError>>, pos: int, n: nat)
    requires
        window_ok(script, pos, n as int),
    ensures
        batch_result(script, pos, n) == Ok::<Seq<T>, SensorError>(window_vals(script, pos, n)),
        batch_steps(script, pos, n) == n,
    decreases n,
{
    if n == 0 {
        assert(window_vals(script, pos, n) =~= Seq::<T>::empty());
    } else {
        assert(read_at(script, pos) is Ok);
        assert(0 <= pos < script.len());
        lemma_batch_ok(script, pos + 1, (n - 1) as nat);
        let v = read_at(script, pos)->Ok_0;
        assert(seq![v] + window_vals(script, pos + 1, (n - 1) as nat) =~= window_vals(
            script,
            pos,
            n,
        ));
    }
}

/// A batch whose first `k` reads succeed and whose read `k` fails returns
/// that error and consumes the entries up to and including the failing one
/// (none for the failing read if the script had run out).
pub proof fn lemma_batch_err<T>(script: Seq<Result<T, SensorError>>, pos: int, n: nat, k: nat)
    requires
        k < n,
        window_ok(script, pos, k as int),
        read_at(script, pos + k) is Err,
    ensures
        batch_result(script, pos, n) == Err::<Seq<T>, SensorError>(
            read_at(script, pos + k)->Err_0,
        ),
        batch_steps(script, pos, n) == k + (if 0 <= pos + k < script.len() {
            1int
        } else {
            0int
        }),
    decreases k,
{
    if k == 0 {
        assert(read_at(script, pos) is Err);
    } else {
        assert(read_at(script, pos) is Ok);
        assert(0 <= pos < script.len());
        lemma_batch_err(script, pos + 1, (n - 1) as nat, (k - 1) as nat);
    }
}

/// A batch of one read returns the single reading, or its error, and
/// consumes one entry exactly when the script still has one.
pub proof fn lemma_batch_single<T>(script: Seq<Result<T, SensorError>>, pos: int)
    ensures
        read_at(script, pos) matches Ok(v) ==> batch_result(script, pos, 1) == Ok::<
            Seq<T>,
            SensorError,
        >(seq![v]),
        read_at(script, pos) matches Err(e) ==> batch_result(script, pos, 1) == Err::<
            Seq<T>,
            SensorError,
        >(e),
        batch_steps(script, pos, 1) == (if 0 <= pos < script.len() {
            1int
        } else {
            0int
        }),
{
    if read_at(script, pos) is Ok {
        let v = read_at(script, pos)->Ok_0;
        assert(batch_result(script, pos + 1, 0) == Ok::<Seq<T>, SensorError>(Seq::empty()));
        assert(batch_steps(script, pos + 1, 0) == 0);
        assert(seq![v] + Seq::<T>::empty() =~= seq![v]);
    }
}

/// For every positive sample count, averaging a vector channel that always
/// reports the same value yields exactly that value: the batch succeeds and
/// the per-axis mean of its window is the constant, with no rounding.
pub proof fn lemma_average_of_constant_channel(
    script: Seq<Result<ThreeVector, SensorError>>,
    pos: int,
    n: nat,
    c: ThreeVector,
)
    requires
        n >= 1,
        window_ok(script, pos, n as int),
        forall|j: int| pos <= j < pos + n ==> (#[trigger] read_at(script, j))->Ok_0 == c,
    ensures
        batch_result(script, pos, n) == Ok::<Seq<ThreeVector>, SensorError>(
            window_vals(script, pos, n),
        ),
        mean_of(window_vals(script, pos, n).map_values(|t: ThreeVector| t.x as int)) == c.x,
        mean_of(window_vals(script, pos, n).map_values(|t: ThreeVector| t.y as int)) == c.y,
        mean_of(window_vals(script, pos, n).map_values(|t: ThreeVector| t.z as int)) == c.z,
{
    lemma_batch_ok(script, pos, n);
    let vs = window_vals(script, pos, n);
    assert(forall|i: int| 0 <= i < vs.len() ==> #[trigger] vs[i] == c);
    crate::stats::lemma_mean_const(vs.map_values(|t: ThreeVector| t.x as int), c.x as int);
    crate::stats::lemma_mean_const(vs.map_values(|t: ThreeVector| t.y as int), c.y as int);
    crate::stats::lemma_mean_const(vs.map_values(|t: ThreeVector| t.z as int), c.z as int);
}

/// Averaging with a sample count of one is a single raw read: the batch is
/// the one reading and every per-axis mean equals that reading exactly.
pub proof fn lemma_average_of_single_sample(
    script: Seq<Result<ThreeVector, SensorError>>,
    pos: int,
)
    requires
        read_at(script, pos) is Ok,
    ensures
        ({
            let v = read_at(script, pos)->Ok_0;
            &&& batch_result(script, pos, 1) == Ok::<Seq<ThreeVector>, SensorError>(seq![v])
            &&& mean_of(seq![v].map_values(|t: ThreeVector| t.x as int)) == v.x
            &&& mean_of(seq![v].map_values(|t: ThreeVector| t.y as int)) == v.y
            &&& mean_of(seq![v].map_values(|t: ThreeVector| t.z as int)) == v.z
        }),
{
    lemma_batch_single(script, pos);
    let v = read_at(script, pos)->Ok_0;
    assert(seq![v].map_values(|t: ThreeVector| t.x as int) =~= seq![v.x as int]);
    assert(seq![v].map_values(|t: ThreeVector| t.y as int) =~= seq![v.y as int]);
    assert(seq![v].map_values(|t: ThreeVector| t.z as int) =~= seq![v.z as int]);
    crate::stats::lemma_mean_single(seq![v.x as int]);
    crate::stats::lemma_mean_single(seq![v.y as int]);
    crate::stats::lemma_mean_single(seq![v.z as int]);
}

/// Every vector in the sequence is in range.
pub open spec fn vec3_seq_in_range(s: Seq<ThreeVector>) -> bool {
    forall|i: int| 0 <= i < s.len() ==> (#[trigger] s[i]).in_range()
}

/// Fail-fast batch of `samples` gyro reads.
#[verifier::loop_isolation(false)]
pub(crate) fn read_gyro_batch(link: &mut SensorLink, samples: usize) -> (r: Result<
    Vec<ThreeVector>,
    SensorError,
>)
    requires
        old(link).wf(),
        old(link).initialized,
    ensures
        final(link).wf(),
        same_core(*old(link), *final(link)),
        same_angle(*old(link), *final(link)),
        same_temp(*old(link), *final(link)),
        same_accel(*old(link), *final(link)),
        final(link).gyro_script@ == old(link).gyro_script@,
        final(link).gyro_pos == old(link).gyro_pos + batch_steps(
            old(link).gyro_script@,
            old(link).gyro_pos as int,
            samples as nat,
        ),
        r matches Ok(b) ==> batch_result(
            old(link).gyro_script@,
            old(link).gyro_pos as int,
            samples as nat,
        ) == Ok::<Seq<ThreeVector>, SensorError>(b@) && b@.len() == samples
            && vec3_seq_in_range(b@),
        r matches Err(e) ==> batch_result(
            old(link).gyro_script@,
            old(link).gyro_pos as int,
            samples as nat,
        ) == Err::<Seq<ThreeVector>, SensorError>(e),
{
    let ghost script = old(link).gyro_script@;
    let ghost pos0 = old(link).gyro_pos as int;
    let mut out: Vec<ThreeVector> = Vec::new();
    let mut k: usize = 0;
    while k < samples
        invariant
            0 <= k <= samples,
            link.wf(),
            same_core(*old(link), *link),
            same_angle(*old(link), *link),
            same_temp(*old(link), *link),
            same_accel(*old(link), *link),
            link.gyro_script@ == script,
            link.gyro_pos == pos0 + k,
            window_ok(script, pos0, k as int),
            out@ == window_vals(script, pos0, k as nat),
            vec3_seq_in_range(out@),
        decreases samples - k,
    {
        match link.read_gyro() {
            Ok(v) => {
                out.push(v);
                proof {
                    assert(window_vals(script, pos0, (k + 1) as nat) =~= window_vals(
                        script,
                        pos0,
                        k as nat,
                    ).push(v));
                }
                k = k + 1;
            },
            Err(e) => {
                proof {
                    lemma_batch_err(script, pos0, samples as nat, k as nat);
                }
                return Err(e);
            },
        }
    }
    proof {
        lemma_batch_ok(script, pos0, samples as nat);
    }
    Ok(out)
}

/// Truncated per-component mean of a non-empty batch of vectors.
pub(crate) fn mean_vec3(batch: &Vec<ThreeVector>) -> (m: ThreeVector)
    requires
        batch@.len() >= 1,
        vec3_seq_in_range(batch@),
    ensures
        m.x == mean_of(batch@.map_values(|t: ThreeVector| t.x as int)),
        m.y == mean_of(batch@.map_values(|t: ThreeVector| t.y as int)),
        m.z == mean_of(batch@.map_values(|t: ThreeVector| t.z as int)),
        m.in_range(),
{
    let xs = component_x(batch);
    let ys = component_y(batch);
    let zs = component_z(batch);
    let mx = mean_fixed(&xs);
    let my = mean_fixed(&ys);
    let mz = mean_fixed(&zs);
    proof {
        assert(xs@.map_values(|v: i64| v as int) =~= batch@.map_values(
            |t: ThreeVector| t.x as int,
        ));
        assert(ys@.map_values(|v: i64| v as int) =~= batch@.map_values(
            |t: ThreeVector| t.y as int,
        ));
        assert(zs@.map_values(|v: i64| v as int) =~= batch@.map_values(
            |t: ThreeVector| t.z as int,
        ));
    }
    ThreeVector { x: mx, y: my, z: mz }
}

/// The x components of a batch, in order.
#[verifier::loop_isolation(false)]
pub(crate) fn component_x(batch: &Vec<ThreeVector>) -> (r: Vec<i64>)
    requires
        vec3_seq_in_range(batch@),
    ensures
        r@ == batch@.map_values(|t: ThreeVector| t.x),
        forall|i: int| 0 <= i < r@.len() ==> scalar_in_range(#[trigger] r@[i]),
{
    let mut out: Vec<i64> = Vec::new();
    let mut i: usize = 0;
    while i < batch.len()
        invariant
            0 <= i <= batch@.len(),
            out@ == batch@.take(i as int).map_values(|t: ThreeVector| t.x),
            forall|j: int| 0 <= j < out@.len() ==> scalar_in_range(#[trigger] out@[j]),
        decreases batch@.len() - i,
    {
        out.push(batch[i].x);
        proof {
            assert(batch@.take(i + 1).map_values(|t: ThreeVector| t.x) =~= batch@.take(
                i as int,
            ).map_values(|t: ThreeVector| t.x).push(batch@[i as int].x));
        }
        i = i + 1;
    }
    proof {
        assert(batch@.take(batch@.len() as int) =~= batch@);
    }
    out
}

/// The y components of a batch, in order.
#[verifier::loop_isolation(false)]
pub(crate) fn component_y(batch: &Vec<ThreeVector>) -> (r: Vec<i64>)
    requires
        vec3_seq_in_range(batch@),
    ensures
        r@ == batch@.map_values(|t: ThreeVector| t.y),
        forall|i: int| 0 <= i < r@.len() ==> scalar_in_range(#[trigger] r@[i]),
{
    let mut out: Vec<i64> = Vec::new();
    let mut i: usize = 0;
    while i < batch.len()
        invariant
            0 <= i <= batch@.len(),
            out@ == batch@.take(i as int).map_values(|t: ThreeVector| t.y),
            forall|j: int| 0 <= j < out@.len() ==> scalar_in_range(#[trigger] out@[j]),
        decreases batch@.len() - i,
    {
        out.push(batch[i].y);
        proof {
            assert(batch@.take(i + 1).map_values(|t: ThreeVector| t.y) =~= batch@.take(
                i as int,
            ).map_values(|t: ThreeVector| t.y).push(batch@[i as int].y));
        }
        i = i + 1;
    }
    proof {
        assert(batch@.take(batch@.len() as int) =~= batch@);
    }
    out
}

/// The z components of a batch, in order.
#[verifier::loop_isolation(false)]
pub(crate) fn component_z(batch: &Vec<ThreeVector>) -> (r: Vec<i64>)
    requires
        vec3_seq_in_range(batch@),
    ensures
        r@ == batch@.map_values(|t: ThreeVector| t.z),
        forall|i: int| 0 <= i < r@.len() ==> scalar_in_range(#[trigger] r@[i]),
{
    let mut out: Vec<i64> = Vec::new();
    let mut i: usize = 0;
    while i < batch.len()
        invariant
            0 <= i <= batch@.len(),
            out@ == batch@.take(i as int).map_values(|t: ThreeVector| t.z),
            forall|j: int| 0 <= j < out@.len() ==> scalar_in_range(#[trigger] out@[j]),
        decreases batch@.len() - i,
    {
        out.push(batch[i].z);
        proof {
            assert(batch@.take(i + 1).map_values(|t: ThreeVector| t.z) =~= batch@.take(
                i as int,
            ).map_values(|t: ThreeVector| t.z).push(batch@[i as int].z));
        }
        i = i + 1;
    }
    proof {
        assert(batch@.take(batch@.len() as int) =~= batch@);
    }
    out
}

/// Fail-fast batch of `samples` accelerometer reads.
#[verifier::loop_isolation(false)]
pub(crate) fn read_accel_batch(link: &mut SensorLink, samples: usize) -> (r: Result<
    Vec<ThreeVector>,
    SensorError,
>)
    requires
        old(link).wf(),
        old(link).initialized,
    ensures
        final(link).wf(),
        same_core(*old(link), *final(link)),
        same_angle(*old(link), *final(link)),
        same_temp(*old(link), *final(link)),
        same_gyro(*old(link), *final(link)),
        final(link).accel_script@ == old(link).accel_script@,
        final(link).accel_pos == old(link).accel_pos + batch_steps(
            old(link).accel_script@,
            old(link).accel_pos as int,
            samples as nat,
        ),
        r matches Ok(b) ==> batch_result(
            old(link).accel_script@,
            old(link).accel_pos as int,
            samples as nat,
        ) == Ok::<Seq<ThreeVector>, SensorError>(b@) && b@.len() == samples
            && vec3_seq_in_range(b@),
        r matches Err(e) ==> batch_result(
            old(link).accel_script@,
            old(link).accel_pos as int,
            samples as nat,
        ) == Err::<Seq<ThreeVector>, SensorError>(e),
{
    let ghost script = old(link).accel_script@;
    let ghost pos0 = old(link).accel_pos as int;
    let mut out: Vec<ThreeVector> = Vec::new();
    let mut k: usize = 0;
    while k < samples
        invariant
            0 <= k <= samples,
            link.wf(),
            same_core(*old(link), *link),
            same_angle(*old(link), *link),
            same_temp(*old(link), *link),
            same_gyro(*old(link), *link),
            link.accel_script@ == script,
            link.accel_pos == pos0 + k,
            window_ok(script, pos0, k as int),
            out@ == window_vals(script, pos0, k as nat),
            vec3_seq_in_range(out@),
        decreases samples - k,
    {
        match link.read_accel() {
            Ok(v) => {
                out.push(v);
                proof {
                    assert(window_vals(script, pos0, (k + 1) as nat) =~= window_vals(
                        script,
                        pos0,
                        k as nat,
                    ).push(v));
                }
                k = k + 1;
            },
            Err(e) => {
                proof {
                    lemma_batch_err(script, pos0, samples as nat, k as nat);
                }
                return Err(e);
            },
        }
    }
    proof {
        lemma_batch_ok(script, pos0, samples as nat);
    }
    Ok(out)
}

/// Fail-fast batch of `samples` temperature reads.
#[verifier::loop_isolation(false)]
pub(crate) fn read_temp_batch(link: &mut SensorLink, samples: usize) -> (r: Result<Vec<i64>, SensorError>)
    requires
        old(link).wf(),
        old(link).initialized,
    ensures
        final(link).wf(),
        same_core(*old(link), *final(link)),
        same_angle(*old(link), *final(link)),
        same_gyro(*old(link), *final(link)),
        same_accel(*old(link), *final(link)),
        final(link).temp_script@ == old(link).temp_script@,
        final(link).temp_pos == old(link).temp_pos + batch_steps(
            old(link).temp_script@,
            old(link).temp_pos as int,
            samples as nat,
        ),
        r matches Ok(b) ==> batch_result(
            old(link).temp_script@,
            old(link).temp_pos as int,
            samples as nat,
        ) == Ok::<Seq<i64>, SensorError>(b@) && b@.len() == samples && (forall|i: int|
            0 <= i < b@.len() ==> scalar_in_range(#[trigger] b@[i])),
        r matches Err(e) ==> batch_result(
            old(link).temp_script@,
            old(link).temp_pos as int,
            samples as nat,
        ) == Err::<Seq<i64>, SensorError>(e),
{
    let ghost script = old(link).temp_script@;
    let ghost pos0 = old(link).temp_pos as int;
    let mut out: Vec<i64> = Vec::new();
    let mut k: usize = 0;
    while k < samples
        invariant
            0 <= k <= samples,
            link.wf(),
            same_core(*old(link), *link),
            same_angle(*old(link), *link),
            same_gyro(*old(link), *link),
            same_accel(*old(link), *link),
            link.temp_script@ == script,
            link.temp_pos == pos0 + k,
            window_ok(script, pos0, k as int),
            out@ == window_vals(script, pos0, k as nat),
            forall|i: int| 0 <= i < out@.len() ==> scalar_in_range(#[trigger] out@[i]),
        decreases samples - k,
    {
        match link.read_temperature() {
            Ok(v) => {
                out.push(v);
                proof {
                    assert(window_vals(script, pos0, (k + 1) as nat) =~= window_vals(
                        script,
                        pos0,
                        k as nat,
                    ).push(v));
                }
                k = k + 1;
            },
            Err(e) => {
                proof {
                    lemma_batch_err(script, pos0, samples as nat, k as nat);
                }
                return Err(e);
            },
        }
    }
    proof {
        lemma_batch_ok(script, pos0, samples as nat);
    }
    Ok(out)
}

/// Every angle pair in the sequence is in range.
pub open spec fn angle_seq_in_range(s: Seq<RollPitch>) -> bool {
    forall|i: int| 0 <= i < s.len() ==> (#[trigger] s[i]).in_range()
}

/// Fail-fast batch of `samples` angle reads.
#[verifier::loop_isolation(false)]
pub(crate) fn read_angle_batch(link: &mut SensorLink, samples: usize) -> (r: Result<
    Vec<RollPitch>,
    SensorError,
>)
    requires
        old(link).wf(),
        old(link).initialized,
    ensures
        final(link).wf(),
        same_core(*old(link), *final(link)),
        same_temp(*old(link), *final(link)),
        same_gyro(*old(link), *final(link)),
        same_accel(*old(link), *final(link)),
        final(link).angle_script@ == old(link).angle_script@,
        final(link).angle_pos == old(link).angle_pos + batch_steps(
            old(link).angle_script@,
            old(link).angle_pos as int,
            samples as nat,
        ),
        r matches Ok(b) ==> batch_result(
            old(link).angle_script@,
            old(link).angle_pos as int,
            samples as nat,
        ) == Ok::<Seq<RollPitch>, SensorError>(b@) && b@.len() == samples
            && angle_seq_in_range(b@),
        r matches Err(e) ==> batch_result(
            old(link).angle_script@,
            old(link).angle_pos as int,
            samples as nat,
        ) == Err::<Seq<RollPitch>, SensorError>(e),
{
    let ghost script = old(link).angle_script@;
    let ghost pos0 = old(link).angle_pos as int;
    let mut out: Vec<RollPitch> = Vec::new();
    let mut k: usize = 0;
    while k < samples
        invariant
            0 <= k <= samples,
            link.wf(),
            same_core(*old(link), *link),
            same_temp(*old(link), *link),
            same_gyro(*old(link), *link),
            same_accel(*old(link), *link),
            link.angle_script@ == script,
            link.angle_pos == pos0 + k,
            window_ok(script, pos0, k as int),
            out@ == window_vals(script, pos0, k as nat),
            angle_seq_in_range(out@),
        decreases samples - k,
    {
        match link.read_angles() {
            Ok(v) => {
                out.push(v);
                proof {
                    assert(window_vals(script, pos0, (k + 1) as nat) =~= window_vals(
                        script,
                        pos0,
                        k as nat,
                    ).push(v));
                }
                k = k + 1;
            },
            Err(e) => {
                proof {
                    lemma_batch_err(script, pos0, samples as nat, k as nat);
                }
                return Err(e);
            },
        }
    }
    proof {
        lemma_batch_ok(script, pos0, samples as nat);
    }
    Ok(out)
}

/// Averaged gyro read: `samples` sequential reads, fail fast, exact
/// truncated per-axis mean of the batch.
pub fn average_gyro(link: &mut SensorLink, samples: usize) -> (r: Result<
    ThreeVector,
    SensorError,
>)
    requires
        old(link).wf(),
        old(link).initialized,
        samples >= 1,
    ensures
        final(link).wf(),
        same_core(*old(link), *final(link)),
        same_angle(*old(link), *final(link)),
        same_temp(*old(link), *final(link)),
        same_accel(*old(link), *final(link)),
        final(link).gyro_script@ == old(link).gyro_script@,
        final(link).gyro_pos == old(link).gyro_pos + batch_steps(
            old(link).gyro_script@,
            old(link).gyro_pos as int,
            samples as nat,
        ),
        ({
            let res = batch_result(
                old(link).gyro_script@,
                old(link).gyro_pos as int,
                samples as nat,
            );
            &&& (r is Ok <==> res is Ok)
            &&& (r matches Ok(m) ==> {
                let vs = res->Ok_0;
                &&& m.x == mean_of(vs.map_values(|t: ThreeVector| t.x as int))
                &&& m.y == mean_of(vs.map_values(|t: ThreeVector| t.y as int))
                &&& m.z == mean_of(vs.map_values(|t: ThreeVector| t.z as int))
                &&& m.in_range()
            })
            &&& (r matches Err(e) ==> res == Err::<Seq<ThreeVector>, SensorError>(e))
        }),
{
    match read_gyro_batch(link, samples) {
        Ok(batch) => Ok(mean_vec3(&batch)),
        Err(e) => Err(e),
    }
}

/// Averaged accelerometer read: `samples` sequential reads, fail fast, exact
/// truncated per-axis mean of the batch.
pub fn average_accel(link: &mut SensorLink, samples: usize) -> (r: Result<
    ThreeVector,
    SensorError,
>)
    requires
        old(link).wf(),
        old(link).initialized,
        samples >= 1,
    ensures
        final(link).wf(),
        same_core(*old(link), *final(link)),
        same_angle(*old(link), *final(link)),
        same_temp(*old(link), *final(link)),
        same_gyro(*old(link), *final(link)),
        final(link).accel_script@ == old(link).accel_script@,
        final(link).accel_pos == old(link).accel_pos + batch_steps(
            old(link).accel_script@,
            old(link).accel_pos as int,
            samples as nat,
        ),
        ({
            let res = batch_result(
                old(link).accel_script@,
                old(link).accel_pos as int,
                samples as nat,
            );
            &&& (r is Ok <==> res is Ok)
            &&& (r matches Ok(m) ==> {
                let vs = res->Ok_0;
                &&& m.x == mean_of(vs.map_values(|t: ThreeVector| t.x as int))
                &&& m.y == mean_of(vs.map_values(|t: ThreeVector| t.y as int))
                &&& m.z == mean_of(vs.map_values(|t: ThreeVector| t.z as int))
                &&& m.in_range()
            })
            &&& (r matches Err(e) ==> res == Err::<Seq<ThreeVector>, SensorError>(e))
        }),
{
    match read_accel_batch(link, samples) {
        Ok(batch) => Ok(mean_vec3(&batch)),
        Err(e) => Err(e),
    }
}

/// Averaged temperature read: `samples` sequential reads, fail fast, exact
/// truncated mean of the batch.
pub fn average_temp(link: &mut SensorLink, samples: usize) -> (r: Result<i64, SensorError>)
    requires
        old(link).wf(),
        old(link).initialized,
        samples >= 1,
    ensures
        final(link).wf(),
        same_core(*old(link), *final(link)),
        same_angle(*old(link), *final(link)),
        same_gyro(*old(link), *final(link)),
        same_accel(*old(link), *final(link)),
        final(link).temp_script@ == old(link).temp_script@,
        final(link).temp_pos == old(link).temp_pos + batch_steps(
            old(link).temp_script@,
            old(link).temp_pos as int,
            samples as nat,
        ),
        ({
            let res = batch_result(
                old(link).temp_script@,
                old(link).temp_pos as int,
                samples as nat,
            );
            &&& (r is Ok <==> res is Ok)
            &&& (r matches Ok(m) ==> m == mean_of(res->Ok_0.map_values(|t: i64| t as int))
                && scalar_in_range(m))
            &&& (r matches Err(e) ==> res == Err::<Seq<i64>, SensorError>(e))
        }),
{
    match read_temp_batch(link, samples) {
        Ok(batch) => {
            let m = mean_fixed(&batch);
            Ok(m)
        },
        Err(e) => Err(e),
    }
}

/// Averaged angle read: `samples` sequential reads, fail fast, exact
/// truncated mean of roll and of pitch over the batch.
pub fn average_angles(link: &mut SensorLink, samples: usize) -> (r: Result<
    RollPitch,
    SensorError,
>)
    requires
        old(link).wf(),
        old(link).initialized,
        samples >= 1,
    ensures
        final(link).wf(),
        same_core(*old(link), *final(link)),
        same_temp(*old(link), *final(link)),
        same_gyro(*old(link), *final(link)),
        same_accel(*old(link), *final(link)),
        final(link).angle_script@ == old(link).angle_script@,
        final(link).angle_pos == old(link).angle_pos + batch_steps(
            old(link).angle_script@,
            old(link).angle_pos as int,
            samples as nat,
        ),
        ({
            let res = batch_result(
                old(link).angle_script@,
                old(link).angle_pos as int,
                samples as nat,
            );
            &&& (r is Ok <==> res is Ok)
            &&& (r matches Ok(m) ==> {
                let vs = res->Ok_0;
                &&& m.roll == mean_of(vs.map_values(|a: RollPitch| a.roll as int))
                &&& m.pitch == mean_of(vs.map_values(|a: RollPitch| a.pitch as int))
                &&& m.in_range()
            })
            &&& (r matches Err(e) ==> res == Err::<Seq<RollPitch>, SensorError>(e))
        }),
{
    match read_angle_batch(link, samples) {
        Ok(batch) => {
            let rolls = component_roll(&batch);
            let pitches = component_pitch(&batch);
            let mr = mean_fixed(&rolls);
            let mp = mean_fixed(&pitches);
            proof {
                assert(rolls@.map_values(|v: i64| v as int) =~= batch@.map_values(
                    |a: RollPitch| a.roll as int,
                ));
                assert(pitches@.map_values(|v: i64| v as int) =~= batch@.map_values(
                    |a: RollPitch| a.pitch as int,
                ));
            }
            Ok(RollPitch { roll: mr, pitch: mp })
        },
        Err(e) => Err(e),
    }
}

/// The roll components of an angle batch, in order.
#[verifier::loop_isolation(false)]
fn component_roll(batch: &Vec<RollPitch>) -> (r: Vec<i64>)
    requires
        angle_seq_in_range(batch@),
    ensures
        r@ == batch@.map_values(|a: RollPitch| a.roll),
        forall|i: int| 0 <= i < r@.len() ==> scalar_in_range(#[trigger] r@[i]),
{
    let mut out: Vec<i64> = Vec::new();
    let mut i: usize = 0;
    while i < batch.len()
        invariant
            0 <= i <= batch@.len(),
            out@ == batch@.take(i as int).map_values(|a: RollPitch| a.roll),
            forall|j: int| 0 <= j < out@.len() ==> scalar_in_range(#[trigger] out@[j]),
        decreases batch@.len() - i,
    {
        out.push(batch[i].roll);
        proof {
            assert(batch@.take(i + 1).map_values(|a: RollPitch| a.roll) =~= batch@.take(
                i as int,
            ).map_values(|a: RollPitch| a.roll).push(batch@[i as int].roll));
        }
        i = i + 1;
    }
    proof {
        assert(batch@.take(batch@.len() as int) =~= batch@);
    }
    out
}

/// The pitch components of an angle batch, in order.
#[verifier::loop_isolation(false)]
fn component_pitch(batch: &Vec<RollPitch>) -> (r: Vec<i64>)
    requires
        angle_seq_in_range(batch@),
    ensures
        r@ == batch@.map_values(|a: RollPitch| a.pitch),
        forall|i: int| 0 <= i < r@.len() ==> scalar_in_range(#[trigger] r@[i]),
{
    let mut out: Vec<i64> = Vec::new();
    let mut i: usize = 0;
    while i < batch.len()
        invariant
            0 <= i <= batch@.len(),
            out@ == batch@.take(i as int).map_values(|a: RollPitch| a.pitch),
            forall|j: int| 0 <= j < out@.len() ==> scalar_in_range(#[trigger] out@[j]),
        decreases batch@.len() - i,
    {
        out.push(batch[i].pitch);
        proof {
            assert(batch@.take(i + 1).map_values(|a: RollPitch| a.pitch) =~= batch@.take(
                i as int,
            ).map_values(|a: RollPitch| a.pitch).push(batch@[i as int].pitch));
        }
        i = i + 1;
    }
    proof {
        assert(batch@.take(batch@.len() as int) =~= batch@);
    }
    out
}

} // verus!
