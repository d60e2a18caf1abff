//! Behavioural tests of the calibration and aggregation core, driven
//! through the scripted sensor link.

use imu_core::{
    average_gyro, average_temp, build, calc_variance, encode_measurement, parse_endpoint,
    soft_calibrate, Bias, Endpoint, Measurement, Phase, PhaseAction, RollPitch, SensorError,
    SensorLink, ThreeVector,
};

fn vec3(x: i64, y: i64, z: i64) -> ThreeVector {
    ThreeVector::new(x, y, z)
}

fn ready_link() -> SensorLink {
    let mut link = SensorLink::new();
    let r = link.initialize();
    assert!(r.is_ok());
    link
}

#[test]
fn average_of_constant_stream_is_the_constant() {
    for n in [1usize, 2, 3, 7, 50] {
        let mut link = ready_link();
        for _ in 0..n {
            link.script_gyro(Ok(vec3(123, -456, 789)));
        }
        let m = average_gyro(&mut link, n).expect("constant stream must average");
        assert_eq!(m, vec3(123, -456, 789));
    }
}

#[test]
fn average_of_one_sample_is_the_raw_read() {
    let mut link = ready_link();
    link.script_gyro(Ok(vec3(-31, 17, 5)));
    let m = average_gyro(&mut link, 1).unwrap();
    assert_eq!(m, vec3(-31, 17, 5));

    let mut link2 = ready_link();
    link2.script_temp(Ok(23400));
    assert_eq!(average_temp(&mut link2, 1).unwrap(), 23400);
}

#[test]
fn average_truncates_toward_zero() {
    let mut link = ready_link();
    link.script_temp(Ok(1));
    link.script_temp(Ok(2));
    assert_eq!(average_temp(&mut link, 2).unwrap(), 1);

    let mut link2 = ready_link();
    link2.script_temp(Ok(-1));
    link2.script_temp(Ok(-2));
    assert_eq!(average_temp(&mut link2, 2).unwrap(), -1);
}

#[test]
fn average_fails_fast_on_read_error() {
    let mut link = ready_link();
    link.script_gyro(Ok(vec3(1, 1, 1)));
    link.script_gyro(Err(SensorError::BusIo));
    link.script_gyro(Ok(vec3(2, 2, 2)));
    assert_eq!(average_gyro(&mut link, 3), Err(SensorError::BusIo));
}

#[test]
fn exhausted_script_reports_timeout() {
    let mut link = ready_link();
    link.script_gyro(Ok(vec3(1, 1, 1)));
    assert_eq!(average_gyro(&mut link, 2), Err(SensorError::Timeout));
}

#[test]
fn bias_estimation_is_idempotent_on_identical_streams() {
    let make = || {
        let mut link = ready_link();
        for i in 0..10i64 {
            link.script_gyro(Ok(vec3(100 + i, -50 + i, 3 * i)));
            link.script_accel(Ok(vec3(i, 2 * i, 1000 + i)));
        }
        link
    };
    let mut l1 = make();
    let mut l2 = make();
    let b1 = soft_calibrate(&mut l1, 10).unwrap();
    let b2 = soft_calibrate(&mut l2, 10).unwrap();
    assert_eq!(b1, b2);
}

#[test]
fn bias_is_the_mean_of_the_calibration_batch() {
    let mut link = ready_link();
    for v in [10i64, 20, 30, 40] {
        link.script_gyro(Ok(vec3(v, -v, 0)));
        link.script_accel(Ok(vec3(0, 0, 1000 + v)));
    }
    let b = soft_calibrate(&mut link, 4).unwrap();
    assert_eq!(b.gyro, vec3(25, -25, 0));
    assert_eq!(b.accel, vec3(0, 0, 1025));
}

#[test]
fn calibration_failure_produces_no_bias() {
    let mut link = ready_link();
    link.script_gyro(Ok(vec3(1, 1, 1)));
    link.script_gyro(Err(SensorError::BadDevice));
    for _ in 0..2 {
        link.script_accel(Ok(vec3(0, 0, 1000)));
    }
    assert_eq!(soft_calibrate(&mut link, 2), Err(SensorError::BadDevice));
}

#[test]
fn variance_of_constant_stream_is_zero() {
    let mut link = ready_link();
    for _ in 0..20 {
        link.script_gyro(Ok(vec3(77, -13, 5)));
        link.script_accel(Ok(vec3(1, 2, 3)));
    }
    let v = calc_variance(&mut link, &Bias::zero(), 20).unwrap();
    for vv in [v.gyro, v.accel] {
        assert_eq!(vv.x, 0);
        assert_eq!(vv.y, 0);
        assert_eq!(vv.z, 0);
    }
}

#[test]
fn variance_is_unchanged_by_bias_correction() {
    let script = |link: &mut SensorLink| {
        for i in 0..8i64 {
            link.script_gyro(Ok(vec3(10 * i, 0, 0)));
            link.script_accel(Ok(vec3(0, 0, 1000 + i)));
        }
    };
    let mut l1 = ready_link();
    script(&mut l1);
    let mut l2 = ready_link();
    script(&mut l2);
    let v1 = calc_variance(&mut l1, &Bias::zero(), 8).unwrap();
    let bias = Bias {
        gyro: vec3(35, 0, 0),
        accel: vec3(0, 0, 1003),
    };
    let v2 = calc_variance(&mut l2, &bias, 8).unwrap();
    assert_eq!(v1, v2);
}

#[test]
fn variance_of_alternating_stream_approaches_quarter_d_squared() {
    // Stream v, v+d, ... with d = 1000: the analytic variance is
    // d*d/4 = 250000; the exact finite-sample value is
    // m*m*d*d / (2m * (2m - 1)) for 2m samples.
    let run = |n: usize| -> i128 {
        let mut link = ready_link();
        for i in 0..n {
            let val = if i % 2 == 0 { 0 } else { 1000 };
            link.script_gyro(Ok(vec3(val, 0, 0)));
            link.script_accel(Ok(vec3(0, 0, 0)));
        }
        calc_variance(&mut link, &Bias::zero(), n).unwrap().gyro.x
    };
    let v100 = run(100);
    let v1000 = run(1000);
    // Exact closed-form values for m = 50 and m = 500.
    assert_eq!(v100, 2500 * 1_000_000 / (100 * 99));
    assert_eq!(v1000, 250_000 * 1_000_000 / (1000 * 999));
    let target: i128 = 250_000;
    assert!((v1000 - target).abs() < (v100 - target).abs());
}

#[test]
fn build_fails_whole_when_any_channel_fails() {
    // One failing channel at a time; the whole build must fail with that
    // channel's error and never yield a partial measurement.
    for failing in 0..4usize {
        let mut link = ready_link();
        let errs = [
            SensorError::BusIo,
            SensorError::BadDevice,
            SensorError::Timeout,
            SensorError::BusIo,
        ];
        if failing == 0 {
            link.script_angles(Err(errs[0]));
        } else {
            link.script_angles(Ok(RollPitch { roll: 1, pitch: 2 }));
        }
        if failing == 1 {
            link.script_temp(Err(errs[1]));
        } else {
            link.script_temp(Ok(3));
        }
        if failing == 2 {
            link.script_gyro(Err(errs[2]));
        } else {
            link.script_gyro(Ok(vec3(4, 5, 6)));
        }
        if failing == 3 {
            link.script_accel(Err(errs[3]));
        } else {
            link.script_accel(Ok(vec3(7, 8, 9)));
        }
        let r = build(&mut link, &Bias::zero(), None);
        assert_eq!(r, Err(errs[failing]));
    }
}

#[test]
fn build_applies_bias_to_gyro_and_accel_only() {
    let mut link = ready_link();
    link.script_angles(Ok(RollPitch { roll: 100, pitch: 200 }));
    link.script_temp(Ok(300));
    link.script_gyro(Ok(vec3(400, 500, 600)));
    link.script_accel(Ok(vec3(700, 800, 900)));
    let bias = Bias {
        gyro: vec3(10, 20, 30),
        accel: vec3(1, 2, 3),
    };
    let m = build(&mut link, &bias, None).unwrap();
    assert_eq!(m.roll, 100);
    assert_eq!(m.pitch, 200);
    assert_eq!(m.temp, 300);
    assert_eq!(m.gyro, vec3(390, 480, 570));
    assert_eq!(m.acc, vec3(699, 798, 897));
}

#[test]
fn build_with_averaging_uses_the_sample_count() {
    let mut link = ready_link();
    for v in [100i64, 200] {
        link.script_angles(Ok(RollPitch { roll: v, pitch: -v }));
        link.script_temp(Ok(10 * v));
        link.script_gyro(Ok(vec3(v, v, v)));
        link.script_accel(Ok(vec3(0, 0, v)));
    }
    let m = build(&mut link, &Bias::zero(), Some(2)).unwrap();
    assert_eq!(m.roll, 150);
    assert_eq!(m.pitch, -150);
    assert_eq!(m.temp, 1500);
    assert_eq!(m.gyro, vec3(150, 150, 150));
    assert_eq!(m.acc, vec3(0, 0, 150));
}

#[test]
fn end_to_end_measurement_and_wire_format() {
    // Simulated sensor: angles (1.5, -2.0), temp 23.4, gyro (0.1, 0.2, 0.3),
    // accel (0.0, 0.0, 1.0), bias zero, raw build.
    let mut link = ready_link();
    link.script_angles(Ok(RollPitch { roll: 1500, pitch: -2000 }));
    link.script_temp(Ok(23400));
    link.script_gyro(Ok(vec3(100, 200, 300)));
    link.script_accel(Ok(vec3(0, 0, 1000)));
    let m = build(&mut link, &Bias::zero(), None).unwrap();
    assert_eq!(
        m,
        Measurement {
            roll: 1500,
            pitch: -2000,
            temp: 23400,
            gyro: vec3(100, 200, 300),
            acc: vec3(0, 0, 1000),
        }
    );
    let bytes = encode_measurement(&m);
    assert_eq!(
        String::from_utf8(bytes.clone()).unwrap(),
        "{\"roll\":1.500,\"pitch\":-2.000,\"temp\":23.400,\
         \"gyro\":{\"x\":0.100,\"y\":0.200,\"z\":0.300},\
         \"acc\":{\"x\":0.000,\"y\":0.000,\"z\":1.000}}"
    );
    // Cross-check with a JSON parser: exactly the documented leaves.
    let v: serde_json::Value = serde_json::from_slice(&bytes).unwrap();
    assert_eq!(v["roll"].as_f64().unwrap(), 1.5);
    assert_eq!(v["pitch"].as_f64().unwrap(), -2.0);
    assert_eq!(v["temp"].as_f64().unwrap(), 23.4);
    assert_eq!(v["gyro"]["x"].as_f64().unwrap(), 0.1);
    assert_eq!(v["gyro"]["y"].as_f64().unwrap(), 0.2);
    assert_eq!(v["gyro"]["z"].as_f64().unwrap(), 0.3);
    assert_eq!(v["acc"]["x"].as_f64().unwrap(), 0.0);
    assert_eq!(v["acc"]["y"].as_f64().unwrap(), 0.0);
    assert_eq!(v["acc"]["z"].as_f64().unwrap(), 1.0);
    assert_eq!(v.as_object().unwrap().len(), 5);
}

#[test]
fn encoder_renders_signs_and_padding() {
    let m = Measurement {
        roll: 0,
        pitch: -1,
        temp: 1_234_567,
        gyro: ThreeVector::new(-1000000, 999, 10),
        acc: ThreeVector::new(-999, 1, -10),
    };
    let bytes = encode_measurement(&m);
    assert_eq!(
        String::from_utf8(bytes).unwrap(),
        "{\"roll\":0.000,\"pitch\":-0.001,\"temp\":1234.567,\
         \"gyro\":{\"x\":-1000.000,\"y\":0.999,\"z\":0.010},\
         \"acc\":{\"x\":-0.999,\"y\":0.001,\"z\":-0.010}}"
    );
}

#[test]
fn bad_destination_is_rejected_before_any_bus_access() {
    // Invalid octet and out-of-range port.
    assert_eq!(parse_endpoint(&b"999.1.1.1:70000".to_vec()), None);
}

#[test]
fn destination_grammar_is_exact() {
    assert_eq!(
        parse_endpoint(&b"192.168.0.1:8080".to_vec()),
        Some(Endpoint { a: 192, b: 168, c: 0, d: 1, port: 8080 })
    );
    assert_eq!(
        parse_endpoint(&b"0.0.0.0:0".to_vec()),
        Some(Endpoint { a: 0, b: 0, c: 0, d: 0, port: 0 })
    );
    assert_eq!(
        parse_endpoint(&b"255.255.255.255:65535".to_vec()),
        Some(Endpoint { a: 255, b: 255, c: 255, d: 255, port: 65535 })
    );
    for bad in [
        "",
        "1.2.3.4",
        "1.2.3:80",
        "1.2.3.4.5:80",
        "256.1.1.1:80",
        "1.1.1.1:65536",
        "01.2.3.4:80",
        "1.2.3.4:008",
        "1.2.3.4:",
        ".2.3.4:80",
        "1.2.3.4:80x",
        "a.b.c.d:80",
        "1..3.4:80",
    ] {
        assert_eq!(parse_endpoint(&bad.as_bytes().to_vec()), None, "{bad:?}");
    }
}

#[test]
fn init_failure_blocks_the_session() {
    let mut link = SensorLink::new();
    link.script_init(Err(SensorError::BadDevice));
    assert_eq!(link.initialize(), Err(SensorError::BadDevice));
}

#[test]
fn driver_phases_follow_the_session_order() {
    let p = Phase::start();
    assert_eq!(p.action(), PhaseAction::Initialize);
    let p = p.advance(true);
    assert_eq!(p, Phase::Initialized);
    assert_eq!(p.action(), PhaseAction::Calibrate);
    let p = p.advance(true);
    assert_eq!(p, Phase::Calibrated);
    assert_eq!(p.action(), PhaseAction::Sample);
    let p = p.advance(true);
    assert_eq!(p, Phase::Sampling);
    let p = p.advance(true);
    assert_eq!(p, Phase::Sampling);
    let p = p.advance(false);
    assert_eq!(p, Phase::Terminated);
    assert_eq!(p.action(), PhaseAction::Stop);
    assert_eq!(p.advance(true), Phase::Terminated);

    // Failures in the early phases are fatal too.
    assert_eq!(Phase::Uninitialized.advance(false), Phase::Terminated);
    assert_eq!(Phase::Initialized.advance(false), Phase::Terminated);
    assert_eq!(Phase::Calibrated.advance(false), Phase::Terminated);
}
