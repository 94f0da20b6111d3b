//! Integer 3-vectors and the spec-level vector algebra the contracts use.
//!
//! World geometry is carried in exact integer units.  Executable points use
//! `i64` components; triangle normals, being products of coordinate
//! differences, use `i128`.  The spec model of both is `V3`, a vector of
//! unbounded integers, so every contract speaks exact mathematics.

use vstd::prelude::*;

verus! {

/// Largest magnitude a world-space point component may have.
///
/// Chosen so that a cross product of differences of such points fits in
/// `i128`: components are at most `2^60`, differences at most `2^61`, and a
/// cross-product component at most `2^123`.
pub const MAX_POINT: i64 = 0x1000_0000_0000_0000;

/// Largest magnitude allowed for vertex components and transform entries.
///
/// Chosen so that applying a transform stays within [`MAX_POINT`]: a
/// transformed component is at most `3 * 2^56 + 2^28 < 2^60`.
pub const MAX_INPUT: i64 = 0x1000_0000;

/// Spec-level 3-vector over unbounded integers: the mathematical model of
/// every executable vector type in the crate.
pub struct V3 {
    pub x: int,
    pub y: int,
    pub z: int,
}

/// The zero vector.
pub open spec fn v3_zero() -> V3 {
    V3 { x: 0, y: 0, z: 0 }
}

/// Componentwise difference `a - b`.
pub open spec fn v3_sub(a: V3, b: V3) -> V3 {
    V3 { x: a.x - b.x, y: a.y - b.y, z: a.z - b.z }
}

/// Scaling by an integer factor.
pub open spec fn v3_scale(k: int, a: V3) -> V3 {
    V3 { x: k * a.x, y: k * a.y, z: k * a.z }
}

/// Dot product.
pub open spec fn v3_dot(a: V3, b: V3) -> int {
    a.x * b.x + a.y * b.y + a.z * b.z
}

/// Cross product.
pub open spec fn v3_cross(a: V3, b: V3) -> V3 {
    V3 {
        x: a.y * b.z - a.z * b.y,
        y: a.z * b.x - a.x * b.z,
        z: a.x * b.y - a.y * b.x,
    }
}

/// Every component within `[-bound, bound]`.
pub open spec fn v3_bounded(a: V3, bound: int) -> bool {
    &&& -bound <= a.x <= bound
    &&& -bound <= a.y <= bound
    &&& -bound <= a.z <= bound
}

/// A world-space point small enough for exact normal computation.
pub open spec fn in_point_range(a: V3) -> bool {
    v3_bounded(a, MAX_POINT as int)
}

/// A vertex position or transform row small enough for exact transforming.
pub open spec fn in_input_range(a: V3) -> bool {
    v3_bounded(a, MAX_INPUT as int)
}

/// Executable world-space point or vector, in integer world units.
#[derive(Clone, Copy, Debug, PartialEq, Eq, Structural)]
pub struct Vec3 {
    pub x: i64,
    pub y: i64,
    pub z: i64,
}

impl View for Vec3 {
    type V = V3;

    open spec fn view(&self) -> V3 {
        V3 { x: self.x as int, y: self.y as int, z: self.z as int }
    }
}

impl Vec3 {
    /// Builds a vector from its components.
    pub fn make(x: i64, y: i64, z: i64) -> (r: Vec3)
        ensures
            r@ == (V3 { x: x as int, y: y as int, z: z as int }),
    {
        Vec3 { x, y, z }
    }

    /// The origin.
    pub fn zero() -> (r: Vec3)
        ensures
            r@ == v3_zero(),
    {
        Vec3 { x: 0, y: 0, z: 0 }
    }
}

/// Executable wide vector for derived data such as plane normals, whose
/// components are products of point differences and need more than 64 bits.
#[derive(Clone, Copy, Debug, PartialEq, Eq, Structural)]
pub struct WideVec3 {
    pub x: i128,
    pub y: i128,
    pub z: i128,
}

impl View for WideVec3 {
    type V = V3;

    open spec fn view(&self) -> V3 {
        V3 { x: self.x as int, y: self.y as int, z: self.z as int }
    }
}

impl WideVec3 {
    /// True exactly when this is the zero vector.
    pub fn is_zero(&self) -> (r: bool)
        ensures
            r == (self@ == v3_zero()),
    {
        self.x == 0 && self.y == 0 && self.z == 0
    }
}

/// Bounds a product by the product of the factors' bounds.
pub proof fn lemma_mul_bound(a: int, b: int, m: int, n: int)
    requires
        -m <= a <= m,
        -n <= b <= n,
        0 <= m,
        0 <= n,
    ensures
        -(m * n) <= a * b <= m * n,
{
    assert(-(m * n) <= a * b <= m * n) by (nonlinear_arith)
        requires
            -m <= a <= m,
            -n <= b <= n,
            0 <= m,
            0 <= n,
    ;
}

} // verus!
