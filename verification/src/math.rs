//! Integer vectors and block positions.

use vstd::prelude::*;

verus! {

/// A pair of integers; for chunk positions `x` is the chunk x and `y` the chunk z.
#[derive(Clone, Copy, Debug, PartialEq, Eq, Structural)]
pub struct Vector2 {
    pub x: i32,
    pub y: i32,
}

impl Vector2 {
    pub fn new(x: i32, y: i32) -> (v: Self)
        ensures
            v.x == x,
            v.y == y,
    {
        Vector2 { x, y }
    }
}

/// A triple of integers.
#[derive(Clone, Copy, Debug, PartialEq, Eq, Structural)]
pub struct Vector3 {
    pub x: i32,
    pub y: i32,
    pub z: i32,
}

/// The position of a block in the world.
#[derive(Clone, Copy, Debug, PartialEq, Eq, Structural)]
pub struct BlockPos(pub Vector3);

impl BlockPos {
    /// The origin block.
    pub fn zero() -> (p: Self)
        ensures
            p.0.x == 0,
            p.0.y == 0,
            p.0.z == 0,
    {
        BlockPos(Vector3 { x: 0, y: 0, z: 0 })
    }

    pub fn new(x: i32, y: i32, z: i32) -> (p: Self)
        ensures
            p.0.x == x,
            p.0.y == y,
            p.0.z == z,
    {
        BlockPos(Vector3 { x, y, z })
    }
}

/// The numeric seed of a world.
#[derive(Clone, Copy, Debug, PartialEq, Eq, Structural)]
pub struct Seed(pub u64);

/// `x` fits in an `i32`.
pub open spec fn in_i32(x: int) -> bool {
    i32::MIN <= x <= i32::MAX
}

/// The magnitude of `x`.
pub open spec fn abs(x: int) -> int {
    if x < 0 { -x } else { x }
}

/// Rust's `%` on integers: the remainder takes the sign of the dividend.
pub open spec fn rust_rem(x: int, d: int) -> int {
    if x >= 0 { x % abs(d) } else { -((-x) % abs(d)) }
}

/// Rust's `/` on integers: the quotient is rounded towards zero.
pub open spec fn rust_div(x: int, d: int) -> int {
    if (x >= 0) == (d > 0) { abs(x) / abs(d) } else { -(abs(x) / abs(d)) }
}


} // verus!
