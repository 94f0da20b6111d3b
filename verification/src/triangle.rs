//! The triangle constructor: validated collision triangles.
//!
//! A candidate triangle is three world-space points.  It is degenerate when
//! the cross product of its edge vectors is exactly zero — with integer
//! coordinates this captures precisely the collinear and coincident cases,
//! so no epsilon is needed: the tolerance of this library is exact zero
//! area.  [`StaticTriangle::from_points`] accepts any three in-range points
//! and yields a validated triangle exactly when the candidate is
//! non-degenerate.

use vstd::prelude::*;

use crate::math::{
    in_point_range, lemma_mul_bound, v3_cross, v3_scale, v3_sub, v3_zero, Vec3, WideVec3, V3,
    MAX_POINT,
};

verus! {

/// Spec model of a triangle: its three corners, in source order.
pub struct Tri {
    pub a: V3,
    pub b: V3,
    pub c: V3,
}

/// The (unnormalized) plane normal: the cross product of the edge vectors
/// `b - a` and `c - a`.
pub open spec fn tri_normal(a: V3, b: V3, c: V3) -> V3 {
    v3_cross(v3_sub(b, a), v3_sub(c, a))
}

/// A candidate is degenerate when its normal vanishes, i.e. the triangle
/// encloses zero area.
pub open spec fn is_degenerate(a: V3, b: V3, c: V3) -> bool {
    tri_normal(a, b, c) == v3_zero()
}

/// Three points are collinear when the edge vectors from the first are
/// integer multiples of one another (this includes every case where two
/// points coincide).
pub open spec fn collinear(a: V3, b: V3, c: V3) -> bool {
    exists|p: int, q: int|
        #![trigger v3_scale(p, v3_sub(b, a)), v3_scale(q, v3_sub(c, a))]
        (p != 0 || q != 0) && v3_scale(p, v3_sub(b, a)) == v3_scale(q, v3_sub(c, a))
}

/// A validated collision triangle: three non-degenerate corners together
/// with their precomputed plane normal.
#[derive(Clone, Copy, Debug)]
pub struct StaticTriangle {
    a: Vec3,
    b: Vec3,
    c: Vec3,
    normal: WideVec3,
}

impl View for StaticTriangle {
    type V = Tri;

    closed spec fn view(&self) -> Tri {
        Tri { a: self.a@, b: self.b@, c: self.c@ }
    }
}

impl StaticTriangle {
    /// The triangle's invariant: the stored normal is the cross product of
    /// its edge vectors, and it is not zero.
    pub closed spec fn wf(self) -> bool {
        &&& self.normal@ == tri_normal(self.a@, self.b@, self.c@)
        &&& !is_degenerate(self.a@, self.b@, self.c@)
    }

    /// Attempts to build a validated triangle from three points.
    ///
    /// Succeeds exactly when the candidate is non-degenerate; a degenerate
    /// candidate produces no triangle, which callers treat as a skip, not
    /// an error.
    pub fn from_points(a: Vec3, b: Vec3, c: Vec3) -> (r: Option<StaticTriangle>)
        requires
            in_point_range(a@),
            in_point_range(b@),
            in_point_range(c@),
        ensures
            match r {
                Some(t) => {
                    &&& !is_degenerate(a@, b@, c@)
                    &&& t@ == (Tri { a: a@, b: b@, c: c@ })
                    &&& t.wf()
                },
                None => is_degenerate(a@, b@, c@),
            },
    {
        let ux: i128 = b.x as i128 - a.x as i128;
        let uy: i128 = b.y as i128 - a.y as i128;
        let uz: i128 = b.z as i128 - a.z as i128;
        let vx: i128 = c.x as i128 - a.x as i128;
        let vy: i128 = c.y as i128 - a.y as i128;
        let vz: i128 = c.z as i128 - a.z as i128;
        proof {
            lemma_cross_term_bounds(uy as int, vz as int);
            lemma_cross_term_bounds(uz as int, vy as int);
            lemma_cross_term_bounds(uz as int, vx as int);
            lemma_cross_term_bounds(ux as int, vz as int);
            lemma_cross_term_bounds(ux as int, vy as int);
            lemma_cross_term_bounds(uy as int, vx as int);
        }
        let nx: i128 = uy * vz - uz * vy;
        let ny: i128 = uz * vx - ux * vz;
        let nz: i128 = ux * vy - uy * vx;
        if nx == 0 && ny == 0 && nz == 0 {
            None
        } else {
            Some(StaticTriangle { a, b, c, normal: WideVec3 { x: nx, y: ny, z: nz } })
        }
    }

    /// First corner.
    pub fn corner_a(&self) -> (r: Vec3)
        ensures
            r@ == self@.a,
    {
        self.a
    }

    /// Second corner.
    pub fn corner_b(&self) -> (r: Vec3)
        ensures
            r@ == self@.b,
    {
        self.b
    }

    /// Third corner.
    pub fn corner_c(&self) -> (r: Vec3)
        ensures
            r@ == self@.c,
    {
        self.c
    }

    /// A well-formed triangle is non-degenerate.
    pub proof fn lemma_nondegenerate(self)
        requires
            self.wf(),
        ensures
            !is_degenerate(self@.a, self@.b, self@.c),
    {
    }

    /// The precomputed plane normal.
    pub fn plane_normal(&self) -> (r: WideVec3)
        requires
            self.wf(),
        ensures
            r@ == tri_normal(self@.a, self@.b, self@.c),
            r@ != v3_zero(),
    {
        self.normal
    }
}

/// A candidate triangle is degenerate exactly when its corners are
/// collinear (which includes any two corners coinciding).  Together with
/// the contract of [`StaticTriangle::from_points`] this says: the
/// constructor fails on every collinear or coincident candidate, and
/// succeeds — with a non-zero plane normal — on every other one.
pub proof fn lemma_degenerate_iff_collinear(a: V3, b: V3, c: V3)
    ensures
        is_degenerate(a, b, c) <==> collinear(a, b, c),
{
    let u = v3_sub(b, a);
    let v = v3_sub(c, a);
    if collinear(a, b, c) {
        let (p, q) = choose|p: int, q: int|
            #![trigger v3_scale(p, v3_sub(b, a)), v3_scale(q, v3_sub(c, a))]
            (p != 0 || q != 0) && v3_scale(p, v3_sub(b, a)) == v3_scale(q, v3_sub(c, a));
        assert(p * u.x == q * v.x);
        assert(p * u.y == q * v.y);
        assert(p * u.z == q * v.z);
        if p != 0 {
            assert(u.y * v.z - u.z * v.y == 0) by (nonlinear_arith)
                requires p != 0, p * u.y == q * v.y, p * u.z == q * v.z;
            assert(u.z * v.x - u.x * v.z == 0) by (nonlinear_arith)
                requires p != 0, p * u.z == q * v.z, p * u.x == q * v.x;
            assert(u.x * v.y - u.y * v.x == 0) by (nonlinear_arith)
                requires p != 0, p * u.x == q * v.x, p * u.y == q * v.y;
        } else {
            assert(u.y * v.z - u.z * v.y == 0) by (nonlinear_arith)
                requires q != 0, q * v.y == p * u.y, q * v.z == p * u.z, p == 0;
            assert(u.z * v.x - u.x * v.z == 0) by (nonlinear_arith)
                requires q != 0, q * v.z == p * u.z, q * v.x == p * u.x, p == 0;
            assert(u.x * v.y - u.y * v.x == 0) by (nonlinear_arith)
                requires q != 0, q * v.x == p * u.x, q * v.y == p * u.y, p == 0;
        }
        assert(v3_cross(u, v) == v3_zero());
    }
    if is_degenerate(a, b, c) {
        if u == v3_zero() {
            assert(v3_scale(1, u) == v3_scale(0, v));
        } else if u.x != 0 {
            assert(v.x * u.y == u.x * v.y) by (nonlinear_arith)
                requires u.x * v.y - u.y * v.x == 0;
            assert(v.x * u.z == u.x * v.z) by (nonlinear_arith)
                requires u.z * v.x - u.x * v.z == 0;
            assert(v.x * u.x == u.x * v.x) by (nonlinear_arith);
            assert(v3_scale(v.x, u) == v3_scale(u.x, v));
        } else if u.y != 0 {
            assert(v.y * u.x == u.y * v.x) by (nonlinear_arith)
                requires u.x * v.y - u.y * v.x == 0;
            assert(v.y * u.z == u.y * v.z) by (nonlinear_arith)
                requires u.y * v.z - u.z * v.y == 0;
            assert(v.y * u.y == u.y * v.y) by (nonlinear_arith);
            assert(v3_scale(v.y, u) == v3_scale(u.y, v));
        } else {
            assert(u.z != 0);
            assert(v.z * u.x == u.z * v.x) by (nonlinear_arith)
                requires u.z * v.x - u.x * v.z == 0;
            assert(v.z * u.y == u.z * v.y) by (nonlinear_arith)
                requires u.y * v.z - u.z * v.y == 0;
            assert(v.z * u.z == u.z * v.z) by (nonlinear_arith);
            assert(v3_scale(v.z, u) == v3_scale(u.z, v));
        }
    }
}

/// Any candidate with two coinciding corners is degenerate, so the
/// constructor rejects it.
pub proof fn lemma_coincident_is_degenerate(a: V3, b: V3, c: V3)
    requires
        a == b || b == c || a == c,
    ensures
        is_degenerate(a, b, c),
{
    let u = v3_sub(b, a);
    let v = v3_sub(c, a);
    if a == b {
        assert(v3_scale(1, u) == v3_scale(0, v));
    } else if a == c {
        assert(v3_scale(0, u) == v3_scale(1, v));
    } else {
        assert(v3_scale(1, u) == v3_scale(1, v));
    }
    lemma_degenerate_iff_collinear(a, b, c);
}

/// Any candidate whose corners are not collinear — which forces them to be
/// pairwise distinct — is non-degenerate, so the constructor succeeds and
/// its plane normal is non-zero.
pub proof fn lemma_noncollinear_is_valid(a: V3, b: V3, c: V3)
    requires
        !collinear(a, b, c),
    ensures
        !is_degenerate(a, b, c),
        tri_normal(a, b, c) != v3_zero(),
        a != b && b != c && a != c,
{
    lemma_degenerate_iff_collinear(a, b, c);
    if a == b || b == c || a == c {
        lemma_coincident_is_degenerate(a, b, c);
    }
}

/// Bounds one product inside a cross-product component of two edge vectors
/// of in-range points, so the `i128` arithmetic cannot overflow.
proof fn lemma_cross_term_bounds(d1: int, d2: int)
    requires
        -(2 * MAX_POINT as int) <= d1 <= 2 * MAX_POINT as int,
        -(2 * MAX_POINT as int) <= d2 <= 2 * MAX_POINT as int,
    ensures
        -(4 * (MAX_POINT as int) * (MAX_POINT as int)) <= d1 * d2 <= 4 * (MAX_POINT as int) * (
        MAX_POINT as int),
{
    lemma_mul_bound(d1, d2, 2 * MAX_POINT as int, 2 * MAX_POINT as int);
    assert((2 * MAX_POINT as int) * (2 * MAX_POINT as int) == 4 * (MAX_POINT as int) * (
    MAX_POINT as int)) by (nonlinear_arith);
}

} // verus!
