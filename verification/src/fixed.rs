//! Fixed-point scalars and the small vectors built from them.
//!
//! A scalar is an `i32` that counts millionths: the raw value `1_000_000`
//! stands for one. A product of two scalars is kept at double precision, as
//! an `i64` that counts millionths of millionths, so that no rounding occurs.

use vstd::prelude::*;

verus! {

/// Raw value of the scalar one.
pub const ONE: i32 = 1_000_000;

/// Raw value of the matching tolerance, one hundredth.
pub const TOLERANCE: i32 = 10_000;

/// A vector of two scalars.
#[derive(Copy, Clone, Debug, PartialEq, Eq, Structural)]
pub struct Vec2 {
    pub x: i32,
    pub y: i32,
}

/// A vector of three unsigned integers, such as the place of a workgroup in
/// its grid.
#[derive(Copy, Clone, Debug, PartialEq, Eq, Structural)]
pub struct UVec3 {
    pub x: u32,
    pub y: u32,
    pub z: u32,
}

/// A vector of four scalars.
#[derive(Copy, Clone, Debug, PartialEq, Eq, Structural)]
pub struct Vec4 {
    pub x: i32,
    pub y: i32,
    pub z: i32,
    pub w: i32,
}

/// The square of an integer.
pub open spec fn square(d: int) -> int {
    d * d
}

/// A component that differs by more than `bound` has a square above `bound * bound`.
pub proof fn lemma_square_above(d: int, bound: int)
    by (nonlinear_arith)
    requires
        0 <= bound,
        d > bound || d < -bound,
    ensures
        square(d) > bound * bound,
{
}

/// A component that differs by at most `bound` has a square of at most `bound * bound`.
pub proof fn lemma_square_within(d: int, bound: int)
    by (nonlinear_arith)
    requires
        -bound <= d <= bound,
    ensures
        0 <= square(d) <= bound * bound,
{
}

impl Vec2 {
    pub fn new(x: i32, y: i32) -> (v: Vec2)
        ensures
            v == (Vec2 { x, y }),
    {
        Vec2 { x, y }
    }
}

impl UVec3 {
    pub fn new(x: u32, y: u32, z: u32) -> (v: UVec3)
        ensures
            v == (UVec3 { x, y, z }),
    {
        UVec3 { x, y, z }
    }
}

impl Vec4 {
    pub fn new(x: i32, y: i32, z: i32, w: i32) -> (v: Vec4)
        ensures
            v == (Vec4 { x, y, z, w }),
    {
        Vec4 { x, y, z, w }
    }

    /// Extends a two-component vector by a third and a fourth component.
    pub fn from_xy(xy: Vec2, z: i32, w: i32) -> (v: Vec4)
        ensures
            v == (Vec4 { x: xy.x, y: xy.y, z, w }),
    {
        Vec4 { x: xy.x, y: xy.y, z, w }
    }

    /// Squared Euclidean distance, in squared raw units.
    pub open spec fn distance_squared(self, other: Vec4) -> int {
        square(self.x - other.x) + square(self.y - other.y) + square(self.z - other.z) + square(
            self.w - other.w,
        )
    }

    /// Whether the Euclidean distance to `other` is at most the tolerance.
    pub open spec fn is_near(self, other: Vec4) -> bool {
        self.distance_squared(other) <= TOLERANCE * TOLERANCE
    }

    /// Decides `is_near` without leaving 64-bit arithmetic: a component that
    /// alone exceeds the tolerance settles the answer before anything is squared.
    pub fn near(&self, other: &Vec4) -> (b: bool)
        ensures
            b == self.is_near(*other),
    {
        let dx: i64 = self.x as i64 - other.x as i64;
        let dy: i64 = self.y as i64 - other.y as i64;
        let dz: i64 = self.z as i64 - other.z as i64;
        let dw: i64 = self.w as i64 - other.w as i64;
        let t: i64 = TOLERANCE as i64;
        proof {
            assert(0 <= square(dx as int)) by (nonlinear_arith);
            assert(0 <= square(dy as int)) by (nonlinear_arith);
            assert(0 <= square(dz as int)) by (nonlinear_arith);
            assert(0 <= square(dw as int)) by (nonlinear_arith);
        }
        if dx > t || dx < -t {
            proof {
                lemma_square_above(dx as int, t as int);
            }
            return false;
        }
        if dy > t || dy < -t {
            proof {
                lemma_square_above(dy as int, t as int);
            }
            return false;
        }
        if dz > t || dz < -t {
            proof {
                lemma_square_above(dz as int, t as int);
            }
            return false;
        }
        if dw > t || dw < -t {
            proof {
                lemma_square_above(dw as int, t as int);
            }
            return false;
        }
        proof {
            lemma_square_within(dx as int, t as int);
            lemma_square_within(dy as int, t as int);
            lemma_square_within(dz as int, t as int);
            lemma_square_within(dw as int, t as int);
        }
        let sum: i64 = dx * dx + dy * dy + dz * dz + dw * dw;
        sum <= t * t
    }
}

} // verus!
