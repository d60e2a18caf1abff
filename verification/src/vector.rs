//! Fixed-point three-axis vector.
//!
//! Sensor quantities (angular rates, accelerations, temperatures, angles) are
//! held as signed fixed-point numbers in thousandths of the channel's native
//! unit, so that every computation in the core is exact integer arithmetic.

use vstd::prelude::*;

verus! {

/// One fixed-point unit is a thousandth of the channel's native unit.
pub const FIXED_SCALE: i64 = 1000;

/// Every value a channel may report lies within this bound (in thousandths).
/// The bound is far above any physical sensor range and keeps all sums of
/// squares inside 128-bit accumulators.
pub const VAL_LIMIT: i64 = 1_000_000_000;

/// A three-axis fixed-point vector: an angular rate or a linear acceleration.
#[derive(Clone, Copy, Debug, PartialEq, Eq, Structural)]
pub struct ThreeVector {
    pub x: i64,
    pub y: i64,
    pub z: i64,
}

/// One orientation reading: roll and pitch angles, fixed-point.
#[derive(Clone, Copy, Debug, PartialEq, Eq, Structural)]
pub struct RollPitch {
    pub roll: i64,
    pub pitch: i64,
}

impl RollPitch {
    /// Both angles lie within the channel bound.
    pub open spec fn in_range(self) -> bool {
        scalar_in_range(self.roll) && scalar_in_range(self.pitch)
    }
}

/// A scalar fixed-point value lies within the channel bound.
pub open spec fn scalar_in_range(v: i64) -> bool {
    -VAL_LIMIT <= v <= VAL_LIMIT
}

impl ThreeVector {
    /// All three components lie within the channel bound.
    pub open spec fn in_range(self) -> bool {
        scalar_in_range(self.x) && scalar_in_range(self.y) && scalar_in_range(self.z)
    }

    pub fn new(x: i64, y: i64, z: i64) -> (r: ThreeVector)
        ensures
            r.x == x,
            r.y == y,
            r.z == z,
    {
        ThreeVector { x, y, z }
    }

    /// Component-wise difference; used to correct a raw reading by a bias.
    pub fn minus(self, other: ThreeVector) -> (r: ThreeVector)
        requires
            self.in_range(),
            other.in_range(),
        ensures
            r.x == self.x - other.x,
            r.y == self.y - other.y,
            r.z == self.z - other.z,
    {
        ThreeVector { x: self.x - other.x, y: self.y - other.y, z: self.z - other.z }
    }
}

} // verus!
