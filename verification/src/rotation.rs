//! The two-axis Euler rotation in fixed-point arithmetic.
//!
//! The platform layer evaluates the sine and cosine of each angle and hands
//! them in scaled by `SCALE`. The rotation itself is then exact integer
//! arithmetic: a vertex is rotated around the X axis first and the result
//! around the Y axis, in that order, using the already-rotated depth as input
//! to the second step. Rotated coordinates come out scaled by `SCALE2`.

use vstd::prelude::*;
use crate::geometry::Vec3;
use vstd::arithmetic::mul::lemma_mul_is_commutative;

verus! {

/// The fixed-point unit: a trigonometric value `v` is carried as `v * SCALE`.
pub const SCALE: i64 = 65000;

/// The scale of a fully rotated coordinate: the square of `SCALE`.
pub const SCALE2: i64 = 4_225_000_000;

/// The largest coordinate magnitude a vertex handed to the rotation may have.
pub const COORD_LIMIT: i64 = 10_000;

/// The largest magnitude a fully rotated coordinate can reach.
pub const ROTATED_LIMIT: i64 = 3 * COORD_LIMIT * SCALE2;

/// A sine/cosine pair for one angle, each scaled by `SCALE`.
#[derive(Clone, Copy, Debug, PartialEq, Eq, Structural)]
pub struct Trig {
    pub sin: i64,
    pub cos: i64,
}

impl Trig {
    /// A scaled sine or cosine can never leave `[-SCALE, SCALE]`.
    pub open spec fn wf(self) -> bool {
        -SCALE <= self.sin <= SCALE && -SCALE <= self.cos <= SCALE
    }

    /// The pair for an angle of zero: sine zero, cosine one.
    pub open spec fn spec_identity() -> Trig {
        Trig { sin: 0, cos: SCALE }
    }

    /// Builds the pair for an angle of zero.
    pub fn identity() -> (t: Trig)
        ensures
            t == Trig::spec_identity(),
            t.wf(),
    {
        Trig { sin: 0, cos: SCALE }
    }

    /// Builds a pair from already scaled values, clamping each into the
    /// range that a scaled sine or cosine can occupy.
    pub fn from_scaled(sin: i64, cos: i64) -> (t: Trig)
        ensures
            t.wf(),
            -SCALE <= sin <= SCALE ==> t.sin == sin,
            -SCALE <= cos <= SCALE ==> t.cos == cos,
            sin > SCALE ==> t.sin == SCALE,
            sin < -SCALE ==> t.sin == -SCALE,
            cos > SCALE ==> t.cos == SCALE,
            cos < -SCALE ==> t.cos == -SCALE,
    {
        let s: i64 = if sin > SCALE {
            SCALE
        } else if sin < -SCALE {
            -SCALE
        } else {
            sin
        };
        let c: i64 = if cos > SCALE {
            SCALE
        } else if cos < -SCALE {
            -SCALE
        } else {
            cos
        };
        Trig { sin: s, cos: c }
    }
}

/// The lateral coordinate after the X-axis rotation, scaled by `SCALE`.
pub open spec fn spec_rot_x_y(v: Vec3, tx: Trig) -> int {
    v.y * tx.cos - v.z * tx.sin
}

/// The depth coordinate after the X-axis rotation, scaled by `SCALE`.
pub open spec fn spec_rot_x_z(v: Vec3, tx: Trig) -> int {
    v.y * tx.sin + v.z * tx.cos
}

/// The first coordinate after both rotations, scaled by `SCALE2`.
pub open spec fn spec_rotated_x(v: Vec3, tx: Trig, ty: Trig) -> int {
    v.x * ty.cos * SCALE + spec_rot_x_z(v, tx) * ty.sin
}

/// The second coordinate after both rotations, scaled by `SCALE2`; the Y-axis
/// rotation leaves it as the X-axis rotation produced it.
pub open spec fn spec_rotated_y(v: Vec3, tx: Trig) -> int {
    spec_rot_x_y(v, tx) * SCALE
}

/// The depth after both rotations, scaled by `SCALE2`.
pub open spec fn spec_rotated_z(v: Vec3, tx: Trig, ty: Trig) -> int {
    -(v.x * ty.sin * SCALE) + spec_rot_x_z(v, tx) * ty.cos
}

/// The product of two values stays inside the product of their bounds.
proof fn lemma_mul_bound(a: int, b: int, aa: int, bb: int)
    by (nonlinear_arith)
    requires
        -aa <= a <= aa,
        -bb <= b <= bb,
        0 <= aa,
        0 <= bb,
    ensures
        -(aa * bb) <= a * b <= aa * bb,
{
}

/// Rotates one vertex around the X axis, then around the Y axis.
pub fn rotate_vertex(v: &Vec3, tx: &Trig, ty: &Trig) -> (r: Vec3)
    requires
        tx.wf(),
        ty.wf(),
        -COORD_LIMIT <= v.x <= COORD_LIMIT,
        -COORD_LIMIT <= v.y <= COORD_LIMIT,
        -COORD_LIMIT <= v.z <= COORD_LIMIT,
    ensures
        r.x == spec_rotated_x(*v, *tx, *ty),
        r.y == spec_rotated_y(*v, *tx),
        r.z == spec_rotated_z(*v, *tx, *ty),
        -ROTATED_LIMIT <= r.x <= ROTATED_LIMIT,
        -ROTATED_LIMIT <= r.y <= ROTATED_LIMIT,
        -ROTATED_LIMIT <= r.z <= ROTATED_LIMIT,
{
    proof {
        lemma_mul_bound(v.y as int, tx.cos as int, COORD_LIMIT as int, SCALE as int);
        lemma_mul_bound(v.z as int, tx.sin as int, COORD_LIMIT as int, SCALE as int);
        lemma_mul_bound(v.y as int, tx.sin as int, COORD_LIMIT as int, SCALE as int);
        lemma_mul_bound(v.z as int, tx.cos as int, COORD_LIMIT as int, SCALE as int);
    }
    // rotate around the X axis; both results carry one factor of SCALE
    let y1: i64 = v.y * tx.cos - v.z * tx.sin;
    let z1: i64 = v.y * tx.sin + v.z * tx.cos;
    proof {
        lemma_mul_bound(v.x as int, ty.cos as int, COORD_LIMIT as int, SCALE as int);
        lemma_mul_bound(v.x as int, ty.sin as int, COORD_LIMIT as int, SCALE as int);
        lemma_mul_bound(
            (v.x * ty.cos) as int,
            SCALE as int,
            (COORD_LIMIT * SCALE) as int,
            SCALE as int,
        );
        lemma_mul_bound(
            (v.x * ty.sin) as int,
            SCALE as int,
            (COORD_LIMIT * SCALE) as int,
            SCALE as int,
        );
        lemma_mul_bound(z1 as int, ty.sin as int, (2 * COORD_LIMIT * SCALE) as int, SCALE as int);
        lemma_mul_bound(z1 as int, ty.cos as int, (2 * COORD_LIMIT * SCALE) as int, SCALE as int);
        lemma_mul_bound(y1 as int, SCALE as int, (2 * COORD_LIMIT * SCALE) as int, SCALE as int);
    }
    // rotate around the Y axis; the depth from the first step feeds the second
    let rx: i64 = v.x * ty.cos * SCALE + z1 * ty.sin;
    let ry: i64 = y1 * SCALE;
    let rz: i64 = -(v.x * ty.sin * SCALE) + z1 * ty.cos;
    Vec3 { x: rx, y: ry, z: rz }
}

/// At angle zero on both axes the rotation is the identity: every rotated
/// coordinate is the original coordinate, carried at the rotated scale.
pub proof fn lemma_identity_rotation(v: Vec3)
    ensures
        spec_rotated_x(v, Trig::spec_identity(), Trig::spec_identity()) == v.x * SCALE2,
        spec_rotated_y(v, Trig::spec_identity()) == v.y * SCALE2,
        spec_rotated_z(v, Trig::spec_identity(), Trig::spec_identity()) == v.z * SCALE2,
{
    let t = Trig::spec_identity();
    assert(spec_rot_x_y(v, t) == v.y * SCALE);
    assert(spec_rot_x_z(v, t) == v.z * SCALE);
}

/// The square of a difference, spelled out.
proof fn lemma_sq_diff(u: int, w: int)
    by (nonlinear_arith)
    ensures
        (u - w) * (u - w) == u * u - 2 * (u * w) + w * w,
{
}

/// The square of a sum, spelled out.
proof fn lemma_sq_sum(u: int, w: int)
    by (nonlinear_arith)
    ensures
        (u + w) * (u + w) == u * u + 2 * (u * w) + w * w,
{
}

/// Factors of a product of products can be paired either way.
proof fn lemma_mul_swap(p: int, q: int, r: int, t: int)
    by (nonlinear_arith)
    ensures
        (p * q) * (r * t) == (p * r) * (q * t),
{
}

/// Multiplying out a product of two sums.
proof fn lemma_sum_product(a2: int, b2: int, s2: int, c2: int)
    by (nonlinear_arith)
    ensures
        a2 * c2 + b2 * s2 + a2 * s2 + b2 * c2 == (a2 + b2) * (s2 + c2),
{
}

/// Rotating in a plane preserves the squared norm there, up to the common
/// factor that the squared sine and cosine carry.
proof fn lemma_plane_rotation_norm(a: int, b: int, s: int, c: int)
    ensures
        (a * c - b * s) * (a * c - b * s) + (a * s + b * c) * (a * s + b * c) == (a * a + b * b) * (
        s * s + c * c),
{
    lemma_sq_diff(a * c, b * s);
    lemma_sq_sum(a * s, b * c);
    lemma_mul_swap(a, c, a, c);
    lemma_mul_swap(b, s, b, s);
    lemma_mul_swap(a, s, a, s);
    lemma_mul_swap(b, c, b, c);
    lemma_mul_swap(a, c, b, s);
    lemma_mul_swap(a, s, b, c);
    lemma_mul_is_commutative(c, s);
    lemma_sum_product(a * a, b * b, s * s, c * c);
}

/// The rotation is orthonormal: for sine/cosine pairs that lie exactly on
/// the circle of radius `SCALE`, the squared norm of the rotated vertex is
/// the squared norm of the original, scaled by `SCALE2` twice.
pub proof fn lemma_rotation_preserves_norm(v: Vec3, tx: Trig, ty: Trig)
    requires
        tx.sin * tx.sin + tx.cos * tx.cos == SCALE2,
        ty.sin * ty.sin + ty.cos * ty.cos == SCALE2,
    ensures
        spec_rotated_x(v, tx, ty) * spec_rotated_x(v, tx, ty) + spec_rotated_y(v, tx)
            * spec_rotated_y(v, tx) + spec_rotated_z(v, tx, ty) * spec_rotated_z(v, tx, ty) == (
        v.x * v.x + v.y * v.y + v.z * v.z) * SCALE2 * SCALE2,
{
    let y1 = spec_rot_x_y(v, tx);
    let z1 = spec_rot_x_z(v, tx);
    let rx = spec_rotated_x(v, tx, ty);
    let ry = spec_rotated_y(v, tx);
    let rz = spec_rotated_z(v, tx, ty);
    // the X-axis rotation turns the (y, z) plane
    lemma_plane_rotation_norm(v.y as int, v.z as int, tx.sin as int, tx.cos as int);
    assert(y1 * y1 + z1 * z1 == (v.y * v.y + v.z * v.z) * SCALE2);
    // the Y-axis rotation turns the (z, x) plane, at one extra scale factor
    let xs = v.x * SCALE;
    assert(v.x * ty.cos * SCALE == xs * ty.cos) by (nonlinear_arith)
        requires
            xs == v.x * SCALE,
    ;
    assert(v.x * ty.sin * SCALE == xs * ty.sin) by (nonlinear_arith)
        requires
            xs == v.x * SCALE,
    ;
    lemma_plane_rotation_norm(z1, xs, ty.sin as int, ty.cos as int);
    assert(rz == z1 * ty.cos - xs * ty.sin);
    assert(rx == z1 * ty.sin + xs * ty.cos);
    assert(rx * rx + rz * rz == (z1 * z1 + xs * xs) * SCALE2);
    assert(xs * xs == v.x * v.x * SCALE2) by (nonlinear_arith)
        requires
            xs == v.x * SCALE,
            SCALE2 == SCALE * SCALE,
    ;
    assert(ry * ry == y1 * y1 * SCALE2) by (nonlinear_arith)
        requires
            ry == y1 * SCALE,
            SCALE2 == SCALE * SCALE,
    ;
    assert(rx * rx + rz * rz == z1 * z1 * SCALE2 + v.x * v.x * SCALE2 * SCALE2);
    assert(ry * ry + z1 * z1 * SCALE2 == (y1 * y1 + z1 * z1) * SCALE2);
    assert((y1 * y1 + z1 * z1) * SCALE2 == ((v.y * v.y + v.z * v.z) * SCALE2) * SCALE2);
}

/// A rotated coordinate of a vertex whose coordinates stay within `m` stays
/// within `3 * m` at the rotated scale; the lateral one within `2 * m`.
pub proof fn lemma_rotation_bounded(v: Vec3, tx: Trig, ty: Trig, m: int)
    requires
        tx.wf(),
        ty.wf(),
        0 <= m,
        -m <= v.x <= m,
        -m <= v.y <= m,
        -m <= v.z <= m,
    ensures
        -3 * m * SCALE2 <= spec_rotated_x(v, tx, ty) <= 3 * m * SCALE2,
        -2 * m * SCALE2 <= spec_rotated_y(v, tx) <= 2 * m * SCALE2,
        -3 * m * SCALE2 <= spec_rotated_z(v, tx, ty) <= 3 * m * SCALE2,
{
    lemma_mul_bound(v.y as int, tx.cos as int, m, SCALE as int);
    lemma_mul_bound(v.z as int, tx.sin as int, m, SCALE as int);
    lemma_mul_bound(v.y as int, tx.sin as int, m, SCALE as int);
    lemma_mul_bound(v.z as int, tx.cos as int, m, SCALE as int);
    let y1 = spec_rot_x_y(v, tx);
    let z1 = spec_rot_x_z(v, tx);
    lemma_mul_bound(v.x as int, ty.cos as int, m, SCALE as int);
    lemma_mul_bound(v.x as int, ty.sin as int, m, SCALE as int);
    lemma_mul_bound(v.x * ty.cos, SCALE as int, m * SCALE, SCALE as int);
    lemma_mul_bound(v.x * ty.sin, SCALE as int, m * SCALE, SCALE as int);
    lemma_mul_bound(z1, ty.sin as int, 2 * m * SCALE, SCALE as int);
    lemma_mul_bound(z1, ty.cos as int, 2 * m * SCALE, SCALE as int);
    lemma_mul_bound(y1, SCALE as int, 2 * m * SCALE, SCALE as int);
    assert(m * SCALE * SCALE == m * SCALE2);
    assert(2 * m * SCALE * SCALE == 2 * m * SCALE2);
}

} // verus!
