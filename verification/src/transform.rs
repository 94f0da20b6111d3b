//! World transforms: affine maps from local to world space.
//!
//! A transform is a 3×3 integer matrix (stored row by row) plus a
//! translation; applying it to a point is exact integer arithmetic.  Entry
//! and input bounds (see [`crate::math::MAX_INPUT`]) guarantee the result is
//! an in-range world point.

use vstd::prelude::*;

use crate::math::{
    in_input_range, in_point_range, lemma_mul_bound, v3_cross, v3_dot, v3_scale, v3_sub, v3_zero,
    Vec3, MAX_INPUT, MAX_POINT, V3,
};
use crate::triangle::{is_degenerate, tri_normal};

verus! {

/// Spec model of an affine transform: three matrix rows and a translation.
pub struct Affine {
    pub rx: V3,
    pub ry: V3,
    pub rz: V3,
    pub t: V3,
}

/// Applying an affine transform to a point: matrix rows dotted with the
/// point, plus the translation.
pub open spec fn apply(tr: Affine, p: V3) -> V3 {
    V3 {
        x: v3_dot(tr.rx, p) + tr.t.x,
        y: v3_dot(tr.ry, p) + tr.t.y,
        z: v3_dot(tr.rz, p) + tr.t.z,
    }
}

/// Every matrix entry and translation component within the input bound.
pub open spec fn affine_in_range(tr: Affine) -> bool {
    &&& in_input_range(tr.rx)
    &&& in_input_range(tr.ry)
    &&& in_input_range(tr.rz)
    &&& in_input_range(tr.t)
}

/// The pure uniform scale by `k`: diagonal matrix `k·I`, no translation.
pub open spec fn uniform_scale_model(k: int) -> Affine {
    Affine {
        rx: V3 { x: k, y: 0, z: 0 },
        ry: V3 { x: 0, y: k, z: 0 },
        rz: V3 { x: 0, y: 0, z: k },
        t: v3_zero(),
    }
}

/// Executable affine world transform over integer world units.
#[derive(Clone, Copy, Debug)]
pub struct Transform {
    /// Matrix row producing the world `x` component.
    pub rx: Vec3,
    /// Matrix row producing the world `y` component.
    pub ry: Vec3,
    /// Matrix row producing the world `z` component.
    pub rz: Vec3,
    /// Translation.
    pub t: Vec3,
}

impl View for Transform {
    type V = Affine;

    open spec fn view(&self) -> Affine {
        Affine { rx: self.rx@, ry: self.ry@, rz: self.rz@, t: self.t@ }
    }
}

impl Transform {
    /// Builds a transform from its three matrix rows and translation.
    pub fn from_rows(rx: Vec3, ry: Vec3, rz: Vec3, t: Vec3) -> (r: Transform)
        ensures
            r@ == (Affine { rx: rx@, ry: ry@, rz: rz@, t: t@ }),
    {
        Transform { rx, ry, rz, t }
    }

    /// The identity transform.
    pub fn identity() -> (r: Transform)
        ensures
            r@ == uniform_scale_model(1),
            affine_in_range(r@),
    {
        Transform {
            rx: Vec3 { x: 1, y: 0, z: 0 },
            ry: Vec3 { x: 0, y: 1, z: 0 },
            rz: Vec3 { x: 0, y: 0, z: 1 },
            t: Vec3 { x: 0, y: 0, z: 0 },
        }
    }

    /// The pure uniform scale by `k`.
    pub fn uniform_scale(k: i64) -> (r: Transform)
        requires
            -MAX_INPUT <= k <= MAX_INPUT,
        ensures
            r@ == uniform_scale_model(k as int),
            affine_in_range(r@),
    {
        Transform {
            rx: Vec3 { x: k, y: 0, z: 0 },
            ry: Vec3 { x: 0, y: k, z: 0 },
            rz: Vec3 { x: 0, y: 0, z: k },
            t: Vec3 { x: 0, y: 0, z: 0 },
        }
    }

    /// Applies the transform to a local-space point, yielding the exact
    /// world-space point, which is always in range for triangle building.
    pub fn transform_vector(&self, v: Vec3) -> (r: Vec3)
        requires
            affine_in_range(self@),
            in_input_range(v@),
        ensures
            r@ == apply(self@, v@),
            in_point_range(r@),
    {
        proof {
            lemma_row_apply_bounds(self@.rx, v@);
            lemma_row_apply_bounds(self@.ry, v@);
            lemma_row_apply_bounds(self@.rz, v@);
        }
        Vec3 {
            x: self.rx.x * v.x + self.rx.y * v.y + self.rx.z * v.z + self.t.x,
            y: self.ry.x * v.x + self.ry.y * v.y + self.ry.z * v.z + self.t.y,
            z: self.rz.x * v.x + self.rz.y * v.y + self.rz.z * v.z + self.t.z,
        }
    }
}

/// Bounds each product of a row–point dot product, so the `i64` arithmetic
/// in [`Transform::transform_vector`] cannot overflow and the result stays
/// within [`MAX_POINT`].
proof fn lemma_row_apply_bounds(row: V3, p: V3)
    requires
        in_input_range(row),
        in_input_range(p),
    ensures
        -(MAX_INPUT as int * MAX_INPUT as int) <= row.x * p.x <= MAX_INPUT as int * MAX_INPUT as int,
        -(MAX_INPUT as int * MAX_INPUT as int) <= row.y * p.y <= MAX_INPUT as int * MAX_INPUT as int,
        -(MAX_INPUT as int * MAX_INPUT as int) <= row.z * p.z <= MAX_INPUT as int * MAX_INPUT as int,
        -(MAX_POINT as int) <= v3_dot(row, p) <= MAX_POINT as int,
{
    lemma_mul_bound(row.x, p.x, MAX_INPUT as int, MAX_INPUT as int);
    lemma_mul_bound(row.y, p.y, MAX_INPUT as int, MAX_INPUT as int);
    lemma_mul_bound(row.z, p.z, MAX_INPUT as int, MAX_INPUT as int);
}

/// Scaling both factors of a product scales the product by the square.
proof fn lemma_scale_prod(k: int, x: int, y: int)
    ensures
        (k * x) * (k * y) == k * k * (x * y),
{
    assert((k * x) * (k * y) == k * k * (x * y)) by (nonlinear_arith);
}

/// Multiplication distributes over subtraction.
proof fn lemma_mul_distrib(m: int, x: int, y: int)
    ensures
        m * x - m * y == m * (x - y),
{
    assert(m * x - m * y == m * (x - y)) by (nonlinear_arith);
}

/// A world transform that is a pure uniform scale by `k > 0` scales every
/// edge vector by `k` and the plane normal by `k²`, and leaves the
/// degeneracy classification of every candidate triangle unchanged.
pub proof fn lemma_uniform_scale_preserves_degeneracy(k: int, a: V3, b: V3, c: V3)
    requires
        k > 0,
    ensures
        v3_sub(apply(uniform_scale_model(k), b), apply(uniform_scale_model(k), a)) == v3_scale(
            k,
            v3_sub(b, a),
        ),
        v3_sub(apply(uniform_scale_model(k), c), apply(uniform_scale_model(k), a)) == v3_scale(
            k,
            v3_sub(c, a),
        ),
        tri_normal(
            apply(uniform_scale_model(k), a),
            apply(uniform_scale_model(k), b),
            apply(uniform_scale_model(k), c),
        ) == v3_scale(k * k, tri_normal(a, b, c)),
        is_degenerate(
            apply(uniform_scale_model(k), a),
            apply(uniform_scale_model(k), b),
            apply(uniform_scale_model(k), c),
        ) <==> is_degenerate(a, b, c),
{
    let u = v3_sub(b, a);
    let v = v3_sub(c, a);
    let n = tri_normal(a, b, c);
    let sa = apply(uniform_scale_model(k), a);
    let sb = apply(uniform_scale_model(k), b);
    let sc = apply(uniform_scale_model(k), c);
    assert(sa == (V3 { x: k * a.x, y: k * a.y, z: k * a.z }));
    assert(sb == (V3 { x: k * b.x, y: k * b.y, z: k * b.z }));
    assert(sc == (V3 { x: k * c.x, y: k * c.y, z: k * c.z }));
    assert(k * b.x - k * a.x == k * (b.x - a.x)) by (nonlinear_arith);
    assert(k * b.y - k * a.y == k * (b.y - a.y)) by (nonlinear_arith);
    assert(k * b.z - k * a.z == k * (b.z - a.z)) by (nonlinear_arith);
    assert(k * c.x - k * a.x == k * (c.x - a.x)) by (nonlinear_arith);
    assert(k * c.y - k * a.y == k * (c.y - a.y)) by (nonlinear_arith);
    assert(k * c.z - k * a.z == k * (c.z - a.z)) by (nonlinear_arith);
    assert(v3_sub(sb, sa) == v3_scale(k, u));
    assert(v3_sub(sc, sa) == v3_scale(k, v));
    let sn = tri_normal(sa, sb, sc);
    assert(sn == v3_cross(v3_scale(k, u), v3_scale(k, v)));
    lemma_scale_prod(k, u.y, v.z);
    lemma_scale_prod(k, u.z, v.y);
    lemma_scale_prod(k, u.z, v.x);
    lemma_scale_prod(k, u.x, v.z);
    lemma_scale_prod(k, u.x, v.y);
    lemma_scale_prod(k, u.y, v.x);
    lemma_mul_distrib(k * k, u.y * v.z, u.z * v.y);
    lemma_mul_distrib(k * k, u.z * v.x, u.x * v.z);
    lemma_mul_distrib(k * k, u.x * v.y, u.y * v.x);
    assert(sn == v3_scale(k * k, n));
    assert(k > 0 && n.x != 0 ==> k * k * n.x != 0) by (nonlinear_arith);
    assert(k > 0 && n.y != 0 ==> k * k * n.y != 0) by (nonlinear_arith);
    assert(k > 0 && n.z != 0 ==> k * k * n.z != 0) by (nonlinear_arith);
    assert(sn == v3_zero() <==> n == v3_zero());
}

} // verus!
