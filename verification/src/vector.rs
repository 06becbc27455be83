//! Integer vectors with three components.
//!
//! Movement keys ask for directions whose components are whole numbers, so
//! the sum of the directions of all held keys is computed exactly.

use vstd::prelude::*;

verus! {

/// A vector with three integer components.
#[derive(Clone, Copy, Debug, PartialEq, Eq, Structural)]
pub struct Vec3i {
    pub x: i32,
    pub y: i32,
    pub z: i32,
}

/// `x` limited to the interval from `a` to `b`.
pub open spec fn clamp_spec(x: int, a: int, b: int) -> int {
    if x < a {
        a
    } else if x > b {
        b
    } else {
        x
    }
}

/// Limits `x` to the interval from `a` to `b`.
pub fn clamp(x: i32, a: i32, b: i32) -> (r: i32)
    ensures
        r == clamp_spec(x as int, a as int, b as int),
{
    if x < a {
        a
    } else if x > b {
        b
    } else {
        x
    }
}

impl Vec3i {
    /// The mathematical vector that this value stands for.
    pub open spec fn view(&self) -> (int, int, int) {
        (self.x as int, self.y as int, self.z as int)
    }

    /// All components are at most `bound` in absolute value.
    pub open spec fn within(&self, bound: int) -> bool {
        &&& -bound <= self.x <= bound
        &&& -bound <= self.y <= bound
        &&& -bound <= self.z <= bound
    }

    /// The vector with the components `x`, `y` and `z`.
    pub fn new(x: i32, y: i32, z: i32) -> (v: Vec3i)
        ensures
            v == (Vec3i { x, y, z }),
    {
        Vec3i { x, y, z }
    }

    /// The vector whose components are all zero.
    pub fn zeros() -> (v: Vec3i)
        ensures
            v == (Vec3i { x: 0, y: 0, z: 0 }),
    {
        Vec3i { x: 0, y: 0, z: 0 }
    }

    /// The component-wise sum of two vectors.
    pub fn plus(&self, other: &Vec3i) -> (v: Vec3i)
        requires
            i32::MIN <= self.x + other.x <= i32::MAX,
            i32::MIN <= self.y + other.y <= i32::MAX,
            i32::MIN <= self.z + other.z <= i32::MAX,
        ensures
            v@ == (self.x + other.x, self.y + other.y, self.z + other.z),
    {
        Vec3i { x: self.x + other.x, y: self.y + other.y, z: self.z + other.z }
    }

    /// Each component limited to the interval from `a` to `b`.
    pub fn clamped(&self, a: i32, b: i32) -> (v: Vec3i)
        ensures
            v@ == (
                clamp_spec(self.x as int, a as int, b as int),
                clamp_spec(self.y as int, a as int, b as int),
                clamp_spec(self.z as int, a as int, b as int),
            ),
    {
        Vec3i { x: clamp(self.x, a, b), y: clamp(self.y, a, b), z: clamp(self.z, a, b) }
    }
}

} // verus!
