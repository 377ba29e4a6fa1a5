//! Homogeneous 2-D affine transforms in fixed point.
//!
//! A point is a row vector `(x, y, w)` whose homogeneous coordinate `w` is
//! `FP` when it stands for "1". A transform is a 3x3 row-major matrix whose
//! entries are fixed-point numbers; applying it multiplies the row vector by
//! the matrix and drops the extra scale factor from each component.
//! Composition order is always rotate first, then translate.

use vstd::prelude::*;
use crate::fp::FP;
use crate::fp::fp_scale;
use crate::fp::fp_scale_exec;
use crate::trig::sin_spec;
use crate::trig::cos_spec;
use crate::trig::sin_fp;
use crate::trig::cos_fp;
use crate::trig::lemma_trig_bounds;
use crate::trig::lemma_trig_neg;
use crate::trig::lemma_trig_norm;
use crate::trig::lemma_square_neg;
use vstd::arithmetic::div_mod::lemma_div_is_ordered;

verus! {

/// A homogeneous 2-D row vector in fixed point.
#[derive(Clone, Copy, Debug, PartialEq, Eq, Structural)]
pub struct Vec3 {
    pub x: i64,
    pub y: i64,
    pub w: i64,
}

/// A 3x3 row-major transform with fixed-point entries.
#[derive(Clone, Copy, Debug, PartialEq, Eq, Structural)]
pub struct Mat3 {
    pub m00: i64,
    pub m01: i64,
    pub m02: i64,
    pub m10: i64,
    pub m11: i64,
    pub m12: i64,
    pub m20: i64,
    pub m21: i64,
    pub m22: i64,
}

/// Magnitude bound on vector components and matrix entries accepted by the
/// executable transform routines; three products of two such values stay
/// inside `i64`.
pub const MAT_BOUND: i64 = 0x4000_0000;

pub open spec fn vec3_in(v: Vec3, b: int) -> bool {
    &&& -b <= v.x <= b
    &&& -b <= v.y <= b
    &&& -b <= v.w <= b
}

pub open spec fn mat3_in(m: Mat3, b: int) -> bool {
    &&& -b <= m.m00 <= b
    &&& -b <= m.m01 <= b
    &&& -b <= m.m02 <= b
    &&& -b <= m.m10 <= b
    &&& -b <= m.m11 <= b
    &&& -b <= m.m12 <= b
    &&& -b <= m.m20 <= b
    &&& -b <= m.m21 <= b
    &&& -b <= m.m22 <= b
}

/// One component of a row-vector-times-matrix product, rescaled.
pub open spec fn dot3(x: int, y: int, w: int, p: int, q: int, r: int) -> int {
    fp_scale(x * p + y * q + w * r)
}

pub open spec fn apply_x(v: Vec3, m: Mat3) -> int {
    dot3(v.x as int, v.y as int, v.w as int, m.m00 as int, m.m10 as int, m.m20 as int)
}

pub open spec fn apply_y(v: Vec3, m: Mat3) -> int {
    dot3(v.x as int, v.y as int, v.w as int, m.m01 as int, m.m11 as int, m.m21 as int)
}

pub open spec fn apply_w(v: Vec3, m: Mat3) -> int {
    dot3(v.x as int, v.y as int, v.w as int, m.m02 as int, m.m12 as int, m.m22 as int)
}

/// Three products of values bounded by `MAT_BOUND` sum without overflow.
proof fn lemma_dot3_bound(x: int, y: int, w: int, p: int, q: int, r: int)
    requires
        -0x4000_0000 <= x <= 0x4000_0000,
        -0x4000_0000 <= y <= 0x4000_0000,
        -0x4000_0000 <= w <= 0x4000_0000,
        -0x4000_0000 <= p <= 0x4000_0000,
        -0x4000_0000 <= q <= 0x4000_0000,
        -0x4000_0000 <= r <= 0x4000_0000,
    ensures
        -0x1000_0000_0000_0000 <= x * p <= 0x1000_0000_0000_0000,
        -0x1000_0000_0000_0000 <= y * q <= 0x1000_0000_0000_0000,
        -0x1000_0000_0000_0000 <= w * r <= 0x1000_0000_0000_0000,
{
    assert(-0x1000_0000_0000_0000 <= x * p <= 0x1000_0000_0000_0000) by (nonlinear_arith)
        requires
            -0x4000_0000 <= x <= 0x4000_0000,
            -0x4000_0000 <= p <= 0x4000_0000,
    ;
    assert(-0x1000_0000_0000_0000 <= y * q <= 0x1000_0000_0000_0000) by (nonlinear_arith)
        requires
            -0x4000_0000 <= y <= 0x4000_0000,
            -0x4000_0000 <= q <= 0x4000_0000,
    ;
    assert(-0x1000_0000_0000_0000 <= w * r <= 0x1000_0000_0000_0000) by (nonlinear_arith)
        requires
            -0x4000_0000 <= w <= 0x4000_0000,
            -0x4000_0000 <= r <= 0x4000_0000,
    ;
}

/// Multiply a row vector by a matrix: the fixed-point form of
/// `(x, y, w) . M`.
pub fn apply(v: &Vec3, m: &Mat3) -> (r: Vec3)
    requires
        vec3_in(*v, MAT_BOUND as int),
        mat3_in(*m, MAT_BOUND as int),
    ensures
        r.x == apply_x(*v, *m),
        r.y == apply_y(*v, *m),
        r.w == apply_w(*v, *m),
{
    proof {
        lemma_dot3_bound(v.x as int, v.y as int, v.w as int, m.m00 as int, m.m10 as int, m.m20 as int);
        lemma_dot3_bound(v.x as int, v.y as int, v.w as int, m.m01 as int, m.m11 as int, m.m21 as int);
        lemma_dot3_bound(v.x as int, v.y as int, v.w as int, m.m02 as int, m.m12 as int, m.m22 as int);
    }
    let sx: i64 = v.x * m.m00 + v.y * m.m10 + v.w * m.m20;
    let sy: i64 = v.x * m.m01 + v.y * m.m11 + v.w * m.m21;
    let sw: i64 = v.x * m.m02 + v.y * m.m12 + v.w * m.m22;
    Vec3 { x: fp_scale_exec(sx), y: fp_scale_exec(sy), w: fp_scale_exec(sw) }
}

/// The translation matrix: under row-vector multiplication it adds
/// `(dx, dy)` to a point whose homogeneous coordinate stands for "1".
pub open spec fn translator_spec(dx: i64, dy: i64) -> Mat3 {
    Mat3 {
        m00: FP,
        m01: 0,
        m02: 0,
        m10: 0,
        m11: FP,
        m12: 0,
        m20: dx,
        m21: dy,
        m22: FP,
    }
}

pub fn translator(dx: i64, dy: i64) -> (m: Mat3)
    ensures
        m == translator_spec(dx, dy),
{
    Mat3 { m00: FP, m01: 0, m02: 0, m10: 0, m11: FP, m12: 0, m20: dx, m21: dy, m22: FP }
}

/// The rotation matrix for a fixed-point angle, in homogeneous form.
pub open spec fn rotator_spec(a: int) -> Mat3 {
    Mat3 {
        m00: cos_spec(a) as i64,
        m01: (-sin_spec(a)) as i64,
        m02: 0,
        m10: sin_spec(a) as i64,
        m11: cos_spec(a) as i64,
        m12: 0,
        m20: 0,
        m21: 0,
        m22: FP,
    }
}

pub fn rotator(a: i64) -> (m: Mat3)
    ensures
        m == rotator_spec(a as int),
        mat3_in(m, FP as int),
{
    let c = cos_fp(a);
    let s = sin_fp(a);
    Mat3 { m00: c, m01: -s, m02: 0, m10: s, m11: c, m12: 0, m20: 0, m21: 0, m22: FP }
}

/// The identity transform.
pub open spec fn mat3_identity() -> Mat3 {
    Mat3 { m00: FP, m01: 0, m02: 0, m10: 0, m11: FP, m12: 0, m20: 0, m21: 0, m22: FP }
}

/// Rotation by the zero angle is exactly the identity.
pub proof fn lemma_rotator_zero()
    ensures
        rotator_spec(0) == mat3_identity(),
{
    crate::trig::lemma_trig_zero();
}

/// Fixed-point product of two transforms, entry by entry; exact whenever
/// every rescaled sum stays inside `i64`.
pub open spec fn mat_mul_spec(a: Mat3, b: Mat3) -> Mat3 {
    Mat3 {
        m00: dot3(a.m00 as int, a.m01 as int, a.m02 as int, b.m00 as int, b.m10 as int, b.m20 as int) as i64,
        m01: dot3(a.m00 as int, a.m01 as int, a.m02 as int, b.m01 as int, b.m11 as int, b.m21 as int) as i64,
        m02: dot3(a.m00 as int, a.m01 as int, a.m02 as int, b.m02 as int, b.m12 as int, b.m22 as int) as i64,
        m10: dot3(a.m10 as int, a.m11 as int, a.m12 as int, b.m00 as int, b.m10 as int, b.m20 as int) as i64,
        m11: dot3(a.m10 as int, a.m11 as int, a.m12 as int, b.m01 as int, b.m11 as int, b.m21 as int) as i64,
        m12: dot3(a.m10 as int, a.m11 as int, a.m12 as int, b.m02 as int, b.m12 as int, b.m22 as int) as i64,
        m20: dot3(a.m20 as int, a.m21 as int, a.m22 as int, b.m00 as int, b.m10 as int, b.m20 as int) as i64,
        m21: dot3(a.m20 as int, a.m21 as int, a.m22 as int, b.m01 as int, b.m11 as int, b.m21 as int) as i64,
        m22: dot3(a.m20 as int, a.m21 as int, a.m22 as int, b.m02 as int, b.m12 as int, b.m22 as int) as i64,
    }
}

/// Rotating by an angle and then by its negation composes to the identity,
/// up to one fixed-point unit of rounding on the two diagonal entries.
pub proof fn lemma_rotator_inverse(a: int)
    ensures
        ({
            let p = mat_mul_spec(rotator_spec(a), rotator_spec(-a));
            &&& p.m01 == 0
            &&& p.m02 == 0
            &&& p.m10 == 0
            &&& p.m12 == 0
            &&& p.m20 == 0
            &&& p.m21 == 0
            &&& p.m22 == FP
            &&& FP - 1 <= p.m00 <= FP + 1
            &&& FP - 1 <= p.m11 <= FP + 1
        }),
{
    let c = cos_spec(a);
    let s = sin_spec(a);
    lemma_trig_bounds(a);
    lemma_trig_bounds(-a);
    lemma_trig_neg(a);
    lemma_trig_norm(a);
    lemma_square_neg(s);
    let q = c * c + s * s;
    assert(1047962 <= q <= 1049764);
    lemma_div_is_ordered(1047962, q, FP as int);
    lemma_div_is_ordered(q, 1049764, FP as int);
    assert(1047962int / 1024 == 1023);
    assert(1049764int / 1024 == 1025);
    assert(c * s + (-s) * c == 0) by (nonlinear_arith);
    assert(s * c + c * (-s) == 0) by (nonlinear_arith);
}

} // verus!
