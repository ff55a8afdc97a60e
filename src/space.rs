use vstd::prelude::*;

use crate::motion::Axis;

verus! {

/// One scene unit, in nanounits.
pub const UNIT: i64 = 1_000_000_000;

/// A position in the scene, in nanounits.
#[derive(Clone, Copy, Debug, PartialEq, Eq, Structural)]
pub struct Point {
    pub x: i64,
    pub y: i64,
    pub z: i64,
}

/// A difference of two positions, in nanounits.
#[derive(Clone, Copy, Debug, PartialEq, Eq, Structural)]
pub struct Offset {
    pub x: i128,
    pub y: i128,
    pub z: i128,
}

/// `v` held to the range of `i64`.
pub open spec fn clamp_i64(v: int) -> int {
    if v < i64::MIN {
        i64::MIN as int
    } else if v > i64::MAX {
        i64::MAX as int
    } else {
        v
    }
}

/// Distance covered at `speed` thousandths per second during `time`
/// microseconds, in nanounits.
pub open spec fn travel(speed: i32, time: u64) -> int {
    speed * time
}

impl Point {
    pub open spec fn coord(self, a: Axis) -> int {
        match a {
            Axis::X => self.x as int,
            Axis::Y => self.y as int,
            Axis::Z => self.z as int,
        }
    }

    /// This point moved by `d` along `a`, held to the range of `i64`.
    pub open spec fn shifted_spec(self, a: Axis, d: int) -> Point {
        let v = clamp_i64(self.coord(a) + d) as i64;
        match a {
            Axis::X => Point { x: v, ..self },
            Axis::Y => Point { y: v, ..self },
            Axis::Z => Point { z: v, ..self },
        }
    }

    pub fn new(x: i64, y: i64, z: i64) -> (r: Point)
        ensures
            r == (Point { x, y, z }),
    {
        Point { x, y, z }
    }

    pub fn origin() -> (r: Point)
        ensures
            r == (Point { x: 0, y: 0, z: 0 }),
    {
        Point { x: 0, y: 0, z: 0 }
    }

    /// This point moved by `d` nanounits along `a`; a coordinate that would
    /// leave the range of `i64` stops at its bound.
    pub fn shifted(&self, a: Axis, d: i128) -> (r: Point)
        requires
            -0x1_0000_0000_0000_0000_0000_0000_0000 <= d <= 0x1_0000_0000_0000_0000_0000_0000_0000,
        ensures
            r == self.shifted_spec(a, d as int),
    {
        match a {
            Axis::X => Point { x: saturating_offset(self.x, d), ..*self },
            Axis::Y => Point { y: saturating_offset(self.y, d), ..*self },
            Axis::Z => Point { z: saturating_offset(self.z, d), ..*self },
        }
    }

    /// The offset that leads from this point to `target`.
    pub fn offset_to(&self, target: &Point) -> (r: Offset)
        ensures
            r.x == target.x - self.x,
            r.y == target.y - self.y,
            r.z == target.z - self.z,
    {
        Offset {
            x: target.x as i128 - self.x as i128,
            y: target.y as i128 - self.y as i128,
            z: target.z as i128 - self.z as i128,
        }
    }
}

/// `v + d`, held to the range of `i64`.
pub fn saturating_offset(v: i64, d: i128) -> (r: i64)
    requires
        -0x1_0000_0000_0000_0000_0000_0000_0000 <= d <= 0x1_0000_0000_0000_0000_0000_0000_0000,
    ensures
        r == clamp_i64(v + d),
{
    let s: i128 = v as i128 + d;
    if s < i64::MIN as i128 {
        i64::MIN
    } else if s > i64::MAX as i128 {
        i64::MAX
    } else {
        s as i64
    }
}

/// Distance covered at `speed` during `time`, in nanounits.
pub fn travel_of(speed: i32, time: u64) -> (r: i128)
    ensures
        r == travel(speed, time),
        -0x1_0000_0000_0000_0000_0000_0000 <= r <= 0x1_0000_0000_0000_0000_0000_0000,
{
    proof {
        assert(-0x8000_0000 * 0x1_0000_0000_0000_0000 <= speed * time
            <= 0x8000_0000 * 0x1_0000_0000_0000_0000) by (nonlinear_arith)
            requires
                -0x8000_0000 <= speed < 0x8000_0000,
                0 <= time < 0x1_0000_0000_0000_0000,
        ;
    }
    speed as i128 * time as i128
}

} // verus!
