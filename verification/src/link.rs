//! The sensor link: a deterministic, scripted model of the four-channel bus.
//!
//! A `SensorLink` owns one prepared script of outcomes per channel and an
//! independent cursor into each.  Every read consumes the next scripted
//! outcome of its channel; a link whose script is exhausted reports a
//! timeout, like a stalled bus.  The calibration, averaging and
//! measurement-assembly logic is verified against this model, and a test can
//! drive it as a deterministic fake of the hardware.

use vstd::prelude::*;
use crate::error::SensorError;
use crate::vector::{RollPitch, ThreeVector, scalar_in_range};

verus! {

/// The outcome of the read at position `p` of a channel script: the scripted
/// entry, or a timeout once the script is exhausted.
pub open spec fn read_at<T>(script: Seq<Result<T, SensorError>>, p: int) -> Result<
    T,
    SensorError,
> {
    if 0 <= p < script.len() {
        script[p]
    } else {
        Err(SensorError::Timeout)
    }
}

/// Every successful entry of a vector-channel script is in range.
pub open spec fn vec3_script_ok(s: Seq<Result<ThreeVector, SensorError>>) -> bool {
    forall|i: int|
        0 <= i < s.len() ==> ((#[trigger] s[i]) matches Ok(v) ==> v.in_range())
}

/// Every successful entry of the angle-channel script is in range.
pub open spec fn angle_script_ok(s: Seq<Result<RollPitch, SensorError>>) -> bool {
    forall|i: int|
        0 <= i < s.len() ==> ((#[trigger] s[i]) matches Ok(a) ==> a.in_range())
}

/// Every successful entry of the temperature-channel script is in range.
pub open spec fn temp_script_ok(s: Seq<Result<i64, SensorError>>) -> bool {
    forall|i: int|
        0 <= i < s.len() ==> ((#[trigger] s[i]) matches Ok(t) ==> scalar_in_range(t))
}

/// The scripted sensor bus with one fallible single-shot read per channel.
pub struct SensorLink {
    /// Outcome the device reports when it is brought up.
    pub init_result: Result<(), SensorError>,
    /// Whether `initialize` has succeeded; reads demand it.
    pub initialized: bool,
    pub angle_script: Vec<Result<RollPitch, SensorError>>,
    pub angle_pos: usize,
    pub temp_script: Vec<Result<i64, SensorError>>,
    pub temp_pos: usize,
    pub gyro_script: Vec<Result<ThreeVector, SensorError>>,
    pub gyro_pos: usize,
    pub accel_script: Vec<Result<ThreeVector, SensorError>>,
    pub accel_pos: usize,
}

/// Initialization state and scripted init outcome are unchanged.
pub open spec fn same_core(pre: SensorLink, post: SensorLink) -> bool {
    post.init_result == pre.init_result && post.initialized == pre.initialized
}

/// The angle channel (script and cursor) is unchanged.
pub open spec fn same_angle(pre: SensorLink, post: SensorLink) -> bool {
    post.angle_script@ == pre.angle_script@ && post.angle_pos == pre.angle_pos
}

/// The temperature channel (script and cursor) is unchanged.
pub open spec fn same_temp(pre: SensorLink, post: SensorLink) -> bool {
    post.temp_script@ == pre.temp_script@ && post.temp_pos == pre.temp_pos
}

/// The gyro channel (script and cursor) is unchanged.
pub open spec fn same_gyro(pre: SensorLink, post: SensorLink) -> bool {
    post.gyro_script@ == pre.gyro_script@ && post.gyro_pos == pre.gyro_pos
}

/// The accelerometer channel (script and cursor) is unchanged.
pub open spec fn same_accel(pre: SensorLink, post: SensorLink) -> bool {
    post.accel_script@ == pre.accel_script@ && post.accel_pos == pre.accel_pos
}

impl SensorLink {
    /// Every scripted successful reading lies within the channel bound.
    pub open spec fn wf(self) -> bool {
        &&& angle_script_ok(self.angle_script@)
        &&& temp_script_ok(self.temp_script@)
        &&& vec3_script_ok(self.gyro_script@)
        &&& vec3_script_ok(self.accel_script@)
    }

    /// A fresh link: not initialized, successful bring-up, empty scripts.
    pub fn new() -> (r: SensorLink)
        ensures
            r.wf(),
            r.init_result == Ok::<(), SensorError>(()),
            !r.initialized,
            r.angle_script@.len() == 0,
            r.temp_script@.len() == 0,
            r.gyro_script@.len() == 0,
            r.accel_script@.len() == 0,
            r.angle_pos == 0 && r.temp_pos == 0 && r.gyro_pos == 0 && r.accel_pos == 0,
    {
        SensorLink {
            init_result: Ok(()),
            initialized: false,
            angle_script: Vec::new(),
            angle_pos: 0,
            temp_script: Vec::new(),
            temp_pos: 0,
            gyro_script: Vec::new(),
            gyro_pos: 0,
            accel_script: Vec::new(),
            accel_pos: 0,
        }
    }

    /// Script the outcome of bringing the device up.
    pub fn script_init(&mut self, outcome: Result<(), SensorError>)
        requires
            old(self).wf(),
        ensures
            final(self).wf(),
            final(self).init_result == outcome,
            final(self).initialized == old(self).initialized,
            same_angle(*old(self), *final(self)),
            same_temp(*old(self), *final(self)),
            same_gyro(*old(self), *final(self)),
            same_accel(*old(self), *final(self)),
    {
        self.init_result = outcome;
    }

    /// Append one scripted outcome to the angle channel.
    pub fn script_angles(&mut self, outcome: Result<RollPitch, SensorError>)
        requires
            old(self).wf(),
            outcome matches Ok(a) ==> a.in_range(),
        ensures
            final(self).wf(),
            same_core(*old(self), *final(self)),
            final(self).angle_script@ == old(self).angle_script@.push(outcome),
            final(self).angle_pos == old(self).angle_pos,
            same_temp(*old(self), *final(self)),
            same_gyro(*old(self), *final(self)),
            same_accel(*old(self), *final(self)),
    {
        self.angle_script.push(outcome);
    }

    /// Append one scripted outcome to the temperature channel.
    pub fn script_temp(&mut self, outcome: Result<i64, SensorError>)
        requires
            old(self).wf(),
            outcome matches Ok(t) ==> scalar_in_range(t),
        ensures
            final(self).wf(),
            same_core(*old(self), *final(self)),
            same_angle(*old(self), *final(self)),
            final(self).temp_script@ == old(self).temp_script@.push(outcome),
            final(self).temp_pos == old(self).temp_pos,
            same_gyro(*old(self), *final(self)),
            same_accel(*old(self), *final(self)),
    {
        self.temp_script.push(outcome);
    }

    /// Append one scripted outcome to the gyro channel.
    pub fn script_gyro(&mut self, outcome: Result<ThreeVector, SensorError>)
        requires
            old(self).wf(),
            outcome matches Ok(v) ==> v.in_range(),
        ensures
            final(self).wf(),
            same_core(*old(self), *final(self)),
            same_angle(*old(self), *final(self)),
            same_temp(*old(self), *final(self)),
            final(self).gyro_script@ == old(self).gyro_script@.push(outcome),
            final(self).gyro_pos == old(self).gyro_pos,
            same_accel(*old(self), *final(self)),
    {
        self.gyro_script.push(outcome);
    }

    /// Append one scripted outcome to the accelerometer channel.
    pub fn script_accel(&mut self, outcome: Result<ThreeVector, SensorError>)
        requires
            old(self).wf(),
            outcome matches Ok(v) ==> v.in_range(),
        ensures
            final(self).wf(),
            same_core(*old(self), *final(self)),
            same_angle(*old(self), *final(self)),
            same_temp(*old(self), *final(self)),
            same_gyro(*old(self), *final(self)),
            final(self).accel_script@ == old(self).accel_script@.push(outcome),
            final(self).accel_pos == old(self).accel_pos,
    {
        self.accel_script.push(outcome);
    }

    /// Bring the device up.  Must be called exactly once, before any read;
    /// on failure no read may follow, and the session is expected to abort.
    pub fn initialize(&mut self) -> (r: Result<(), SensorError>)
        requires
            old(self).wf(),
            !old(self).initialized,
        ensures
            final(self).wf(),
            r == old(self).init_result,
            final(self).init_result == old(self).init_result,
            final(self).initialized == (old(self).init_result is Ok),
            same_angle(*old(self), *final(self)),
            same_temp(*old(self), *final(self)),
            same_gyro(*old(self), *final(self)),
            same_accel(*old(self), *final(self)),
    {
        let out = self.init_result;
        match out {
            Ok(_) => {
                self.initialized = true;
            },
            Err(_) => {},
        }
        out
    }

    /// One single-shot read of the angle channel.
    pub fn read_angles(&mut self) -> (r: Result<RollPitch, SensorError>)
        requires
            old(self).wf(),
            old(self).initialized,
        ensures
            final(self).wf(),
            same_core(*old(self), *final(self)),
            same_temp(*old(self), *final(self)),
            same_gyro(*old(self), *final(self)),
            same_accel(*old(self), *final(self)),
            final(self).angle_script@ == old(self).angle_script@,
            r == read_at(old(self).angle_script@, old(self).angle_pos as int),
            old(self).angle_pos < old(self).angle_script@.len() ==> final(self).angle_pos
                == old(self).angle_pos + 1,
            old(self).angle_pos >= old(self).angle_script@.len() ==> final(self).angle_pos
                == old(self).angle_pos,
            r matches Ok(a) ==> a.in_range(),
    {
        if self.angle_pos < self.angle_script.len() {
            let out = self.angle_script[self.angle_pos];
            self.angle_pos = self.angle_pos + 1;
            out
        } else {
            Err(SensorError::Timeout)
        }
    }

    /// One single-shot read of the temperature channel.
    pub fn read_temperature(&mut self) -> (r: Result<i64, SensorError>)
        requires
            old(self).wf(),
            old(self).initialized,
        ensures
            final(self).wf(),
            same_core(*old(self), *final(self)),
            same_angle(*old(self), *final(self)),
            same_gyro(*old(self), *final(self)),
            same_accel(*old(self), *final(self)),
            final(self).temp_script@ == old(self).temp_script@,
            r == read_at(old(self).temp_script@, old(self).temp_pos as int),
            old(self).temp_pos < old(self).temp_script@.len() ==> final(self).temp_pos
                == old(self).temp_pos + 1,
            old(self).temp_pos >= old(self).temp_script@.len() ==> final(self).temp_pos
                == old(self).temp_pos,
            r matches Ok(t) ==> scalar_in_range(t),
    {
        if self.temp_pos < self.temp_script.len() {
            let out = self.temp_script[self.temp_pos];
            self.temp_pos = self.temp_pos + 1;
            out
        } else {
            Err(SensorError::Timeout)
        }
    }

    /// One single-shot read of the gyro channel.
    pub fn read_gyro(&mut self) -> (r: Result<ThreeVector, SensorError>)
        requires
            old(self).wf(),
            old(self).initialized,
        ensures
            final(self).wf(),
            same_core(*old(self), *final(self)),
            same_angle(*old(self), *final(self)),
            same_temp(*old(self), *final(self)),
            same_accel(*old(self), *final(self)),
            final(self).gyro_script@ == old(self).gyro_script@,
            r == read_at(old(self).gyro_script@, old(self).gyro_pos as int),
            old(self).gyro_pos < old(self).gyro_script@.len() ==> final(self).gyro_pos
                == old(self).gyro_pos + 1,
            old(self).gyro_pos >= old(self).gyro_script@.len() ==> final(self).gyro_pos
                == old(self).gyro_pos,
            r matches Ok(v) ==> v.in_range(),
    {
        if self.gyro_pos < self.gyro_script.len() {
            let out = self.gyro_script[self.gyro_pos];
            self.gyro_pos = self.gyro_pos + 1;
            out
        } else {
            Err(SensorError::Timeout)
        }
    }

    /// One single-shot read of the accelerometer channel.
    pub fn read_accel(&mut self) -> (r: Result<ThreeVector, SensorError>)
        requires
            old(self).wf(),
            old(self).initialized,
        ensures
            final(self).wf(),
            same_core(*old(self), *final(self)),
            same_angle(*old(self), *final(self)),
            same_temp(*old(self), *final(self)),
            same_gyro(*old(self), *final(self)),
            final(self).accel_script@ == old(self).accel_script@,
            r == read_at(old(self).accel_script@, old(self).accel_pos as int),
            old(self).accel_pos < old(self).accel_script@.len() ==> final(self).accel_pos
                == old(self).accel_pos + 1,
            old(self).accel_pos >= old(self).accel_script@.len() ==> final(self).accel_pos
                == old(self).accel_pos,
            r matches Ok(v) ==> v.in_range(),
    {
        if self.accel_pos < self.accel_script.len() {
            let out = self.accel_script[self.accel_pos];
            self.accel_pos = self.accel_pos + 1;
            out
        } else {
            Err(SensorError::Timeout)
        }
    }
}

} // verus!
