//! Wire-format encoding of a measurement.
//!
//! One datagram carries one measurement as a compact JSON object with
//! exactly the fields `roll`, `pitch`, `temp`, `gyro` (object `x`,`y`,`z`)
//! and `acc` (object `x`,`y`,`z`).  A fixed-point value is rendered as its
//! whole part, a dot, and its thousandths as three zero-padded digits, with
//! a leading minus for negative values.  The encoder is specified down to
//! the exact byte sequence.  Bytes are written as ASCII codes: 34 `"`,
//! 44 `,`, 45 `-`, 46 `.`, 58 `:`, 123 `{`, 125 `}`.

use vstd::prelude::*;
use crate::measurement::{meas_scalar_ok, Measurement};

verus! {

/// Decimal digits of `n`, most significant first (48 is ASCII `0`).
pub open spec fn dec_digits(n: nat) -> Seq<u8>
    decreases n,
{
    if n < 10 {
        seq![(48 + n) as u8]
    } else {
        dec_digits(n / 10).push((48 + n % 10) as u8)
    }
}

/// The rendering of one fixed-point value: optional minus, whole part,
/// dot, three zero-padded thousandths digits.
pub open spec fn fixed_bytes(v: int) -> Seq<u8> {
    let m = (if v >= 0 {
        v
    } else {
        -v
    }) as nat;
    (if v < 0 {
        seq![45u8]
    } else {
        Seq::<u8>::empty()
    }) + dec_digits(m / 1000) + seq![
        46u8,
        (48 + (m / 100) % 10) as u8,
        (48 + (m / 10) % 10) as u8,
        (48 + m % 10) as u8,
    ]
}

/// The rendering of one three-axis vector: `{"x":…,"y":…,"z":…}`
/// (120, 121, 122 are ASCII `x`, `y`, `z`).
pub open spec fn vec3_json(x: int, y: int, z: int) -> Seq<u8> {
    seq![123u8, 34, 120, 34, 58] + fixed_bytes(x) + seq![44u8, 34, 121, 34, 58] + fixed_bytes(y)
        + seq![44u8, 34, 122, 34, 58] + fixed_bytes(z) + seq![125u8]
}

/// The rendering of one complete measurement:
/// `{"roll":…,"pitch":…,"temp":…,"gyro":{…},"acc":{…}}`.
pub open spec fn measurement_json(m: Measurement) -> Seq<u8> {
    seq![123u8, 34, 114, 111, 108, 108, 34, 58] + fixed_bytes(m.roll as int) + seq![
        44u8,
        34,
        112,
        105,
        116,
        99,
        104,
        34,
        58,
    ] + fixed_bytes(m.pitch as int) + seq![44u8, 34, 116, 101, 109, 112, 34, 58] + fixed_bytes(
        m.temp as int,
    ) + seq![44u8, 34, 103, 121, 114, 111, 34, 58] + vec3_json(
        m.gyro.x as int,
        m.gyro.y as int,
        m.gyro.z as int,
    ) + seq![44u8, 34, 97, 99, 99, 34, 58] + vec3_json(
        m.acc.x as int,
        m.acc.y as int,
        m.acc.z as int,
    ) + seq![125u8]
}

/// Append the decimal digits of `n`, most significant first.
fn push_digits(out: &mut Vec<u8>, n: u64)
    ensures
        final(out)@ == old(out)@ + dec_digits(n as nat),
    decreases n,
{
    if n < 10 {
        out.push(48 + n as u8);
        proof {
            assert(out@ =~= old(out)@ + dec_digits(n as nat));
        }
    } else {
        push_digits(out, n / 10);
        out.push(48 + (n % 10) as u8);
        proof {
            assert(out@ =~= old(out)@ + dec_digits(n as nat));
        }
    }
}

/// Append the rendering of one fixed-point value.
fn push_fixed(out: &mut Vec<u8>, v: i64)
    requires
        meas_scalar_ok(v),
    ensures
        final(out)@ == old(out)@ + fixed_bytes(v as int),
{
    let m: u64 = if v < 0 {
        out.push(45);
        (-v) as u64
    } else {
        v as u64
    };
    push_digits(out, m / 1000);
    out.push(46);
    out.push(48 + ((m / 100) % 10) as u8);
    out.push(48 + ((m / 10) % 10) as u8);
    out.push(48 + (m % 10) as u8);
    proof {
        assert(out@ =~= old(out)@ + fixed_bytes(v as int));
    }
}

/// Append the rendering of one three-axis vector.
#[verifier::rlimit(100)]
fn push_vec3(out: &mut Vec<u8>, x: i64, y: i64, z: i64)
    requires
        meas_scalar_ok(x),
        meas_scalar_ok(y),
        meas_scalar_ok(z),
    ensures
        final(out)@ == old(out)@ + vec3_json(x as int, y as int, z as int),
{
    out.push(123);
    out.push(34);
    out.push(120);
    out.push(34);
    out.push(58);
    push_fixed(out, x);
    out.push(44);
    out.push(34);
    out.push(121);
    out.push(34);
    out.push(58);
    push_fixed(out, y);
    out.push(44);
    out.push(34);
    out.push(122);
    out.push(34);
    out.push(58);
    push_fixed(out, z);
    out.push(125);
    proof {
        assert(out@ =~= old(out)@ + vec3_json(x as int, y as int, z as int));
    }
}

/// Encode one measurement as the exact JSON byte sequence of its six
/// fixed-point leaf values under the documented field names.
#[verifier::rlimit(100)]
pub fn encode_measurement(m: &Measurement) -> (r: Vec<u8>)
    requires
        m.wf(),
    ensures
        r@ == measurement_json(*m),
{
    let mut out: Vec<u8> = Vec::new();
    out.push(123);
    out.push(34);
    out.push(114);
    out.push(111);
    out.push(108);
    out.push(108);
    out.push(34);
    out.push(58);
    push_fixed(&mut out, m.roll);
    out.push(44);
    out.push(34);
    out.push(112);
    out.push(105);
    out.push(116);
    out.push(99);
    out.push(104);
    out.push(34);
    out.push(58);
    push_fixed(&mut out, m.pitch);
    out.push(44);
    out.push(34);
    out.push(116);
    out.push(101);
    out.push(109);
    out.push(112);
    out.push(34);
    out.push(58);
    push_fixed(&mut out, m.temp);
    out.push(44);
    out.push(34);
    out.push(103);
    out.push(121);
    out.push(114);
    out.push(111);
    out.push(34);
    out.push(58);
    push_vec3(&mut out, m.gyro.x, m.gyro.y, m.gyro.z);
    out.push(44);
    out.push(34);
    out.push(97);
    out.push(99);
    out.push(99);
    out.push(34);
    out.push(58);
    push_vec3(&mut out, m.acc.x, m.acc.y, m.acc.z);
    out.push(125);
    proof {
        assert(out@ =~= measurement_json(*m));
    }
    out
}

} // verus!
