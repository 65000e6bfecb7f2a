//! Fixed-point vectors and matrices.
//!
//! The executable types hold `i64` fixed-point components; their views are
//! ghost mirrors with unbounded `int` components, so that every contract is a
//! plain statement of integer arithmetic.

use vstd::prelude::*;
use crate::fixed::{
    clamp_to_i64, div_i128, fadd, fdiv, fmul, fsub, fx_add, fx_div, fx_mul, fx_sub, isqrt, isqrt_u128,
    SCALE,
};

verus! {

/// A pair of fixed-point scalars (texture coordinates).
#[derive(Clone, Copy, Debug, PartialEq, Eq)]
pub struct Vec2Fx {
    pub x: i64,
    pub y: i64,
}

/// A triple of fixed-point scalars.
#[derive(Clone, Copy, Debug, PartialEq, Eq)]
pub struct Vec3Fx {
    pub x: i64,
    pub y: i64,
    pub z: i64,
}

/// A homogeneous quadruple of fixed-point scalars.
#[derive(Clone, Copy, Debug, PartialEq, Eq)]
pub struct Vec4Fx {
    pub x: i64,
    pub y: i64,
    pub z: i64,
    pub w: i64,
}

/// A row-major 3 by 3 fixed-point matrix.
#[derive(Clone, Copy, Debug, PartialEq, Eq)]
pub struct Mat3Fx {
    pub m00: i64,
    pub m01: i64,
    pub m02: i64,
    pub m10: i64,
    pub m11: i64,
    pub m12: i64,
    pub m20: i64,
    pub m21: i64,
    pub m22: i64,
}

/// A row-major 4 by 4 fixed-point matrix.
#[derive(Clone, Copy, Debug, PartialEq, Eq)]
pub struct Mat4Fx {
    pub m00: i64,
    pub m01: i64,
    pub m02: i64,
    pub m03: i64,
    pub m10: i64,
    pub m11: i64,
    pub m12: i64,
    pub m13: i64,
    pub m20: i64,
    pub m21: i64,
    pub m22: i64,
    pub m23: i64,
    pub m30: i64,
    pub m31: i64,
    pub m32: i64,
    pub m33: i64,
}

/// Ghost mirror of `Vec2Fx`.
pub ghost struct Vec2i {
    pub x: int,
    pub y: int,
}

/// Ghost mirror of `Vec3Fx`.
pub ghost struct Vec3i {
    pub x: int,
    pub y: int,
    pub z: int,
}

/// Ghost mirror of `Vec4Fx`.
pub ghost struct Vec4i {
    pub x: int,
    pub y: int,
    pub z: int,
    pub w: int,
}

/// Ghost mirror of `Mat3Fx`.
pub ghost struct Mat3i {
    pub m00: int,
    pub m01: int,
    pub m02: int,
    pub m10: int,
    pub m11: int,
    pub m12: int,
    pub m20: int,
    pub m21: int,
    pub m22: int,
}

/// Ghost mirror of `Mat4Fx`.
pub ghost struct Mat4i {
    pub m00: int,
    pub m01: int,
    pub m02: int,
    pub m03: int,
    pub m10: int,
    pub m11: int,
    pub m12: int,
    pub m13: int,
    pub m20: int,
    pub m21: int,
    pub m22: int,
    pub m23: int,
    pub m30: int,
    pub m31: int,
    pub m32: int,
    pub m33: int,
}

impl View for Vec2Fx {
    type V = Vec2i;

    open spec fn view(&self) -> Vec2i {
        Vec2i { x: self.x as int, y: self.y as int }
    }
}

impl View for Vec3Fx {
    type V = Vec3i;

    open spec fn view(&self) -> Vec3i {
        Vec3i { x: self.x as int, y: self.y as int, z: self.z as int }
    }
}

impl View for Vec4Fx {
    type V = Vec4i;

    open spec fn view(&self) -> Vec4i {
        Vec4i { x: self.x as int, y: self.y as int, z: self.z as int, w: self.w as int }
    }
}

impl View for Mat3Fx {
    type V = Mat3i;

    open spec fn view(&self) -> Mat3i {
        Mat3i {
            m00: self.m00 as int,
            m01: self.m01 as int,
            m02: self.m02 as int,
            m10: self.m10 as int,
            m11: self.m11 as int,
            m12: self.m12 as int,
            m20: self.m20 as int,
            m21: self.m21 as int,
            m22: self.m22 as int,
        }
    }
}

impl View for Mat4Fx {
    type V = Mat4i;

    open spec fn view(&self) -> Mat4i {
        Mat4i {
            m00: self.m00 as int,
            m01: self.m01 as int,
            m02: self.m02 as int,
            m03: self.m03 as int,
            m10: self.m10 as int,
            m11: self.m11 as int,
            m12: self.m12 as int,
            m13: self.m13 as int,
            m20: self.m20 as int,
            m21: self.m21 as int,
            m22: self.m22 as int,
            m23: self.m23 as int,
            m30: self.m30 as int,
            m31: self.m31 as int,
            m32: self.m32 as int,
            m33: self.m33 as int,
        }
    }
}

/// Every component lies in the `i64` range (holds of every view of a
/// `Vec3Fx`).
pub open spec fn vec3_in_range(v: Vec3i) -> bool {
    &&& i64::MIN <= v.x <= i64::MAX
    &&& i64::MIN <= v.y <= i64::MAX
    &&& i64::MIN <= v.z <= i64::MAX
}

/// Every component lies in the `i64` range (holds of every view of a
/// `Vec4Fx`).
pub open spec fn vec4_in_range(v: Vec4i) -> bool {
    &&& i64::MIN <= v.x <= i64::MAX
    &&& i64::MIN <= v.y <= i64::MAX
    &&& i64::MIN <= v.z <= i64::MAX
    &&& i64::MIN <= v.w <= i64::MAX
}

/// The ghost identity 3 by 3 matrix (ones on the diagonal, in fixed point).
pub open spec fn mat3i_identity() -> Mat3i {
    Mat3i {
        m00: SCALE as int,
        m01: 0,
        m02: 0,
        m10: 0,
        m11: SCALE as int,
        m12: 0,
        m20: 0,
        m21: 0,
        m22: SCALE as int,
    }
}

/// The ghost identity 4 by 4 matrix.
pub open spec fn mat4i_identity() -> Mat4i {
    Mat4i {
        m00: SCALE as int,
        m01: 0,
        m02: 0,
        m03: 0,
        m10: 0,
        m11: SCALE as int,
        m12: 0,
        m13: 0,
        m20: 0,
        m21: 0,
        m22: SCALE as int,
        m23: 0,
        m30: 0,
        m31: 0,
        m32: 0,
        m33: SCALE as int,
    }
}

/// The identity 3 by 3 matrix.
pub fn mat3_identity() -> (r: Mat3Fx)
    ensures
        r@ == mat3i_identity(),
{
    Mat3Fx {
        m00: SCALE,
        m01: 0,
        m02: 0,
        m10: 0,
        m11: SCALE,
        m12: 0,
        m20: 0,
        m21: 0,
        m22: SCALE,
    }
}

/// The identity 4 by 4 matrix.
pub fn mat4_identity() -> (r: Mat4Fx)
    ensures
        r@ == mat4i_identity(),
{
    Mat4Fx {
        m00: SCALE,
        m01: 0,
        m02: 0,
        m03: 0,
        m10: 0,
        m11: SCALE,
        m12: 0,
        m13: 0,
        m20: 0,
        m21: 0,
        m22: SCALE,
        m23: 0,
        m30: 0,
        m31: 0,
        m32: 0,
        m33: SCALE,
    }
}

/// Componentwise difference of two vectors.
pub open spec fn spec_vec3_sub(a: Vec3i, b: Vec3i) -> Vec3i {
    Vec3i { x: fsub(a.x, b.x), y: fsub(a.y, b.y), z: fsub(a.z, b.z) }
}

/// Componentwise difference of two vectors, saturating.
pub fn vec3_sub(a: &Vec3Fx, b: &Vec3Fx) -> (r: Vec3Fx)
    ensures
        r@ == spec_vec3_sub(a@, b@),
{
    Vec3Fx { x: fx_sub(a.x, b.x), y: fx_sub(a.y, b.y), z: fx_sub(a.z, b.z) }
}

/// Fixed-point dot product: the sum of the componentwise products.
pub open spec fn spec_dot3(a: Vec3i, b: Vec3i) -> int {
    fadd(fadd(fmul(a.x, b.x), fmul(a.y, b.y)), fmul(a.z, b.z))
}

/// Fixed-point dot product of two vectors.
pub fn dot3(a: &Vec3Fx, b: &Vec3Fx) -> (r: i64)
    ensures
        r as int == spec_dot3(a@, b@),
{
    fx_add(fx_add(fx_mul(a.x, b.x), fx_mul(a.y, b.y)), fx_mul(a.z, b.z))
}

/// The Euclidean length of `v` in raw (unscaled) units: the integer square
/// root of the sum of the squared components.
pub open spec fn spec_norm_raw(v: Vec3i) -> int {
    isqrt(v.x * v.x + v.y * v.y + v.z * v.z)
}

/// The unit vector with the direction of `v`: each component divided by the
/// length.  The zero vector (whose direction is undefined) maps to itself.
pub open spec fn spec_normalize3(v: Vec3i) -> Vec3i {
    let n = spec_norm_raw(v);
    if n == 0 {
        Vec3i { x: 0, y: 0, z: 0 }
    } else {
        Vec3i { x: fdiv(v.x, n), y: fdiv(v.y, n), z: fdiv(v.z, n) }
    }
}

fn square_u128(x: i64) -> (r: u128)
    ensures
        r as int == (x as int) * (x as int),
        r <= 0x40000000000000000000000000000000,
{
    proof {
        assert(0 <= (x as int) * (x as int) <= 0x40000000000000000000000000000000)
            by (nonlinear_arith)
            requires
                -0x8000000000000000 <= x as int <= 0x7FFFFFFFFFFFFFFF,
        ;
    }
    let xi: i128 = x as i128;
    let p: i128 = xi * xi;
    p as u128
}

fn scaled_div(x: i64, n: u128) -> (r: i64)
    requires
        0 < n,
        (n as int) < 0x80000000000000000000000000000000,
    ensures
        r as int == fdiv(x as int, n as int),
{
    proof {
        assert(-0x40000000000000000000000000000000 <= (x as int) * (SCALE as int)
            <= 0x40000000000000000000000000000000) by (nonlinear_arith)
            requires
                -0x8000000000000000 <= x as int <= 0x7FFFFFFFFFFFFFFF,
                SCALE as int == 1000000,
        ;
    }
    let p: i128 = (x as i128) * (SCALE as i128);
    let q: i128 = div_i128(p, n as i128);
    clamp_to_i64(q)
}

/// Normalize a vector to (fixed-point) unit length; the zero vector is
/// returned unchanged.
pub fn normalize3(v: &Vec3Fx) -> (r: Vec3Fx)
    ensures
        r@ == spec_normalize3(v@),
{
    let sx: u128 = square_u128(v.x);
    let sy: u128 = square_u128(v.y);
    let sz: u128 = square_u128(v.z);
    let s: u128 = sx + sy + sz;
    let n: u128 = isqrt_u128(s);
    if n == 0 {
        proof {
            assert(spec_norm_raw(v@) == 0);
        }
        Vec3Fx { x: 0, y: 0, z: 0 }
    } else {
        proof {
            assert(spec_norm_raw(v@) == n as int);
            if (n as int) >= 0x80000000000000000000000000000000int {
                assert((n as int) * (n as int) > s as int) by (nonlinear_arith)
                    requires
                        (n as int) >= 0x80000000000000000000000000000000int,
                        (s as int) < 0x100000000000000000000000000000000int,
                ;
            }
        }
        Vec3Fx {
            x: scaled_div(v.x, n),
            y: scaled_div(v.y, n),
            z: scaled_div(v.z, n),
        }
    }
}

/// A 4 by 4 matrix applied to a homogeneous vector, row by row.
pub open spec fn spec_mat4_mul_vec4(m: Mat4i, v: Vec4i) -> Vec4i {
    Vec4i {
        x: fadd(fadd(fadd(fmul(m.m00, v.x), fmul(m.m01, v.y)), fmul(m.m02, v.z)), fmul(m.m03, v.w)),
        y: fadd(fadd(fadd(fmul(m.m10, v.x), fmul(m.m11, v.y)), fmul(m.m12, v.z)), fmul(m.m13, v.w)),
        z: fadd(fadd(fadd(fmul(m.m20, v.x), fmul(m.m21, v.y)), fmul(m.m22, v.z)), fmul(m.m23, v.w)),
        w: fadd(fadd(fadd(fmul(m.m30, v.x), fmul(m.m31, v.y)), fmul(m.m32, v.z)), fmul(m.m33, v.w)),
    }
}

/// Apply a 4 by 4 matrix to a homogeneous vector.
pub fn mat4_mul_vec4(m: &Mat4Fx, v: &Vec4Fx) -> (r: Vec4Fx)
    ensures
        r@ == spec_mat4_mul_vec4(m@, v@),
{
    Vec4Fx {
        x: fx_add(fx_add(fx_add(fx_mul(m.m00, v.x), fx_mul(m.m01, v.y)), fx_mul(m.m02, v.z)), fx_mul(m.m03, v.w)),
        y: fx_add(fx_add(fx_add(fx_mul(m.m10, v.x), fx_mul(m.m11, v.y)), fx_mul(m.m12, v.z)), fx_mul(m.m13, v.w)),
        z: fx_add(fx_add(fx_add(fx_mul(m.m20, v.x), fx_mul(m.m21, v.y)), fx_mul(m.m22, v.z)), fx_mul(m.m23, v.w)),
        w: fx_add(fx_add(fx_add(fx_mul(m.m30, v.x), fx_mul(m.m31, v.y)), fx_mul(m.m32, v.z)), fx_mul(m.m33, v.w)),
    }
}

/// A 3 by 3 matrix applied to a vector, row by row.
pub open spec fn spec_mat3_mul_vec3(m: Mat3i, v: Vec3i) -> Vec3i {
    Vec3i {
        x: fadd(fadd(fmul(m.m00, v.x), fmul(m.m01, v.y)), fmul(m.m02, v.z)),
        y: fadd(fadd(fmul(m.m10, v.x), fmul(m.m11, v.y)), fmul(m.m12, v.z)),
        z: fadd(fadd(fmul(m.m20, v.x), fmul(m.m21, v.y)), fmul(m.m22, v.z)),
    }
}

/// Apply a 3 by 3 matrix to a vector.
pub fn mat3_mul_vec3(m: &Mat3Fx, v: &Vec3Fx) -> (r: Vec3Fx)
    ensures
        r@ == spec_mat3_mul_vec3(m@, v@),
{
    Vec3Fx {
        x: fx_add(fx_add(fx_mul(m.m00, v.x), fx_mul(m.m01, v.y)), fx_mul(m.m02, v.z)),
        y: fx_add(fx_add(fx_mul(m.m10, v.x), fx_mul(m.m11, v.y)), fx_mul(m.m12, v.z)),
        z: fx_add(fx_add(fx_mul(m.m20, v.x), fx_mul(m.m21, v.y)), fx_mul(m.m22, v.z)),
    }
}

/// The rotation/scale block of a 4 by 4 matrix: its upper-left 3 by 3 part.
pub open spec fn spec_upper3(m: Mat4i) -> Mat3i {
    Mat3i {
        m00: m.m00,
        m01: m.m01,
        m02: m.m02,
        m10: m.m10,
        m11: m.m11,
        m12: m.m12,
        m20: m.m20,
        m21: m.m21,
        m22: m.m22,
    }
}

/// Take the upper-left 3 by 3 block of a 4 by 4 matrix.
pub fn upper3(m: &Mat4Fx) -> (r: Mat3Fx)
    ensures
        r@ == spec_upper3(m@),
{
    Mat3Fx {
        m00: m.m00,
        m01: m.m01,
        m02: m.m02,
        m10: m.m10,
        m11: m.m11,
        m12: m.m12,
        m20: m.m20,
        m21: m.m21,
        m22: m.m22,
    }
}

/// The transpose of a 3 by 3 matrix.
pub open spec fn spec_transpose3(m: Mat3i) -> Mat3i {
    Mat3i {
        m00: m.m00,
        m01: m.m10,
        m02: m.m20,
        m10: m.m01,
        m11: m.m11,
        m12: m.m21,
        m20: m.m02,
        m21: m.m12,
        m22: m.m22,
    }
}

/// Transpose a 3 by 3 matrix.
pub fn transpose3(m: &Mat3Fx) -> (r: Mat3Fx)
    ensures
        r@ == spec_transpose3(m@),
{
    Mat3Fx {
        m00: m.m00,
        m01: m.m10,
        m02: m.m20,
        m10: m.m01,
        m11: m.m11,
        m12: m.m21,
        m20: m.m02,
        m21: m.m12,
        m22: m.m22,
    }
}

/// The fixed-point determinant of a 3 by 3 matrix, by cofactor expansion
/// along the first row.
pub open spec fn spec_det3(m: Mat3i) -> int {
    let c00 = fsub(fmul(m.m11, m.m22), fmul(m.m12, m.m21));
    let c01 = fsub(fmul(m.m12, m.m20), fmul(m.m10, m.m22));
    let c02 = fsub(fmul(m.m10, m.m21), fmul(m.m11, m.m20));
    fadd(fadd(fmul(m.m00, c00), fmul(m.m01, c01)), fmul(m.m02, c02))
}

/// Compute the fixed-point determinant of a 3 by 3 matrix.
pub fn det3(m: &Mat3Fx) -> (r: i64)
    ensures
        r as int == spec_det3(m@),
{
    let c00: i64 = fx_sub(fx_mul(m.m11, m.m22), fx_mul(m.m12, m.m21));
    let c01: i64 = fx_sub(fx_mul(m.m12, m.m20), fx_mul(m.m10, m.m22));
    let c02: i64 = fx_sub(fx_mul(m.m10, m.m21), fx_mul(m.m11, m.m20));
    fx_add(fx_add(fx_mul(m.m00, c00), fx_mul(m.m01, c01)), fx_mul(m.m02, c02))
}

/// The inverse of a 3 by 3 matrix: the adjugate divided by the determinant.
/// A singular matrix (fixed-point determinant zero) maps to the identity.
pub open spec fn spec_inverse3(m: Mat3i) -> Mat3i {
    let d = spec_det3(m);
    if d == 0 {
        mat3i_identity()
    } else {
        let c00 = fsub(fmul(m.m11, m.m22), fmul(m.m12, m.m21));
        let c01 = fsub(fmul(m.m12, m.m20), fmul(m.m10, m.m22));
        let c02 = fsub(fmul(m.m10, m.m21), fmul(m.m11, m.m20));
        let c10 = fsub(fmul(m.m02, m.m21), fmul(m.m01, m.m22));
        let c11 = fsub(fmul(m.m00, m.m22), fmul(m.m02, m.m20));
        let c12 = fsub(fmul(m.m01, m.m20), fmul(m.m00, m.m21));
        let c20 = fsub(fmul(m.m01, m.m12), fmul(m.m02, m.m11));
        let c21 = fsub(fmul(m.m02, m.m10), fmul(m.m00, m.m12));
        let c22 = fsub(fmul(m.m00, m.m11), fmul(m.m01, m.m10));
        Mat3i {
            m00: fdiv(c00, d),
            m01: fdiv(c10, d),
            m02: fdiv(c20, d),
            m10: fdiv(c01, d),
            m11: fdiv(c11, d),
            m12: fdiv(c21, d),
            m20: fdiv(c02, d),
            m21: fdiv(c12, d),
            m22: fdiv(c22, d),
        }
    }
}

/// Invert a 3 by 3 matrix; a singular one falls back to the identity.
pub fn inverse3(m: &Mat3Fx) -> (r: Mat3Fx)
    ensures
        r@ == spec_inverse3(m@),
{
    let d: i64 = det3(m);
    if d == 0 {
        mat3_identity()
    } else {
        let c00: i64 = fx_sub(fx_mul(m.m11, m.m22), fx_mul(m.m12, m.m21));
        let c01: i64 = fx_sub(fx_mul(m.m12, m.m20), fx_mul(m.m10, m.m22));
        let c02: i64 = fx_sub(fx_mul(m.m10, m.m21), fx_mul(m.m11, m.m20));
        let c10: i64 = fx_sub(fx_mul(m.m02, m.m21), fx_mul(m.m01, m.m22));
        let c11: i64 = fx_sub(fx_mul(m.m00, m.m22), fx_mul(m.m02, m.m20));
        let c12: i64 = fx_sub(fx_mul(m.m01, m.m20), fx_mul(m.m00, m.m21));
        let c20: i64 = fx_sub(fx_mul(m.m01, m.m12), fx_mul(m.m02, m.m11));
        let c21: i64 = fx_sub(fx_mul(m.m02, m.m10), fx_mul(m.m00, m.m12));
        let c22: i64 = fx_sub(fx_mul(m.m00, m.m11), fx_mul(m.m01, m.m10));
        Mat3Fx {
            m00: fx_div(c00, d),
            m01: fx_div(c10, d),
            m02: fx_div(c20, d),
            m10: fx_div(c01, d),
            m11: fx_div(c11, d),
            m12: fx_div(c21, d),
            m20: fx_div(c02, d),
            m21: fx_div(c12, d),
            m22: fx_div(c22, d),
        }
    }
}

} // verus!
