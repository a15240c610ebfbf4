//! Vectors and matrices over Q16.16 fixed-point scalars.
//!
//! Every operation saturates at the `i64` range instead of overflowing, so
//! all of them are total; the spec functions state the exact value produced,
//! saturation and rounding included.

use vstd::prelude::*;
use crate::fixed::{fx_mul, fx_div, fx_add, fx_sub, fx_mul_s, fx_div_s, fx_add_s, fx_sub_s,
    sat64, isqrt, isqrt_s, FX_ONE};

verus! {

#[derive(Clone, Copy, PartialEq, Eq, Structural, Debug)]
pub struct FxVec2 {
    pub x: i64,
    pub y: i64,
}

#[derive(Clone, Copy, PartialEq, Eq, Structural, Debug)]
pub struct FxVec3 {
    pub x: i64,
    pub y: i64,
    pub z: i64,
}

#[derive(Clone, Copy, PartialEq, Eq, Structural, Debug)]
pub struct FxVec4 {
    pub x: i64,
    pub y: i64,
    pub z: i64,
    pub w: i64,
}

/// A 3x3 matrix; `mRC` is the entry in row R, column C.
#[derive(Clone, Copy, PartialEq, Eq, Structural, Debug)]
pub struct FxMat3 {
    pub m00: i64, pub m01: i64, pub m02: i64,
    pub m10: i64, pub m11: i64, pub m12: i64,
    pub m20: i64, pub m21: i64, pub m22: i64,
}

/// A 4x4 matrix; `mRC` is the entry in row R, column C.
#[derive(Clone, Copy, PartialEq, Eq, Structural, Debug)]
pub struct FxMat4 {
    pub m00: i64, pub m01: i64, pub m02: i64, pub m03: i64,
    pub m10: i64, pub m11: i64, pub m12: i64, pub m13: i64,
    pub m20: i64, pub m21: i64, pub m22: i64, pub m23: i64,
    pub m30: i64, pub m31: i64, pub m32: i64, pub m33: i64,
}

pub open spec fn vec3_add_s(a: FxVec3, b: FxVec3) -> FxVec3 {
    FxVec3 {
        x: fx_add_s(a.x as int, b.x as int) as i64,
        y: fx_add_s(a.y as int, b.y as int) as i64,
        z: fx_add_s(a.z as int, b.z as int) as i64,
    }
}

pub open spec fn vec3_sub_s(a: FxVec3, b: FxVec3) -> FxVec3 {
    FxVec3 {
        x: fx_sub_s(a.x as int, b.x as int) as i64,
        y: fx_sub_s(a.y as int, b.y as int) as i64,
        z: fx_sub_s(a.z as int, b.z as int) as i64,
    }
}

pub open spec fn vec3_scale_s(v: FxVec3, s: int) -> FxVec3 {
    FxVec3 {
        x: fx_mul_s(v.x as int, s) as i64,
        y: fx_mul_s(v.y as int, s) as i64,
        z: fx_mul_s(v.z as int, s) as i64,
    }
}

pub open spec fn dot3_s(a: FxVec3, b: FxVec3) -> int {
    fx_add_s(
        fx_add_s(fx_mul_s(a.x as int, b.x as int), fx_mul_s(a.y as int, b.y as int)),
        fx_mul_s(a.z as int, b.z as int),
    )
}

/// Squared length of the vector, as an unbounded integer.
pub open spec fn norm2_s(v: FxVec3) -> int {
    (v.x as int) * (v.x as int) + (v.y as int) * (v.y as int) + (v.z as int) * (v.z as int)
}

/// Length of the vector in Q16.16: the integer square root of the squared
/// length, saturated.
pub open spec fn magnitude_s(v: FxVec3) -> int {
    sat64(isqrt_s(norm2_s(v)))
}

/// Length of the 2D vector (x, z) in Q16.16.
pub open spec fn magnitude2_s(x: int, z: int) -> int {
    sat64(isqrt_s(x * x + z * z))
}

/// The vector divided by its own length, or the zero vector if the length
/// is zero.
pub open spec fn normalize_s(v: FxVec3) -> FxVec3 {
    let m = magnitude_s(v);
    if m == 0 {
        FxVec3 { x: 0, y: 0, z: 0 }
    } else {
        FxVec3 {
            x: fx_div_s(v.x as int, m) as i64,
            y: fx_div_s(v.y as int, m) as i64,
            z: fx_div_s(v.z as int, m) as i64,
        }
    }
}

impl FxVec3 {
    pub fn new(x: i64, y: i64, z: i64) -> (v: FxVec3)
        ensures
            v == (FxVec3 { x, y, z }),
    {
        FxVec3 { x, y, z }
    }

    pub fn add(&self, other: &FxVec3) -> (r: FxVec3)
        ensures
            r == vec3_add_s(*self, *other),
    {
        FxVec3 {
            x: fx_add(self.x, other.x),
            y: fx_add(self.y, other.y),
            z: fx_add(self.z, other.z),
        }
    }

    pub fn sub(&self, other: &FxVec3) -> (r: FxVec3)
        ensures
            r == vec3_sub_s(*self, *other),
    {
        FxVec3 {
            x: fx_sub(self.x, other.x),
            y: fx_sub(self.y, other.y),
            z: fx_sub(self.z, other.z),
        }
    }

    pub fn scale(&self, s: i64) -> (r: FxVec3)
        ensures
            r == vec3_scale_s(*self, s as int),
    {
        FxVec3 { x: fx_mul(self.x, s), y: fx_mul(self.y, s), z: fx_mul(self.z, s) }
    }

    pub fn dot(&self, other: &FxVec3) -> (r: i64)
        ensures
            r == dot3_s(*self, *other),
    {
        fx_add(
            fx_add(fx_mul(self.x, other.x), fx_mul(self.y, other.y)),
            fx_mul(self.z, other.z),
        )
    }

    /// The vector's length in Q16.16.
    pub fn magnitude(&self) -> (r: i64)
        ensures
            r == magnitude_s(*self),
            r >= 0,
    {
        let xx = square_abs(self.x);
        let yy = square_abs(self.y);
        let zz = square_abs(self.z);
        let s: u64 = isqrt(xx + yy + zz);
        if s > i64::MAX as u64 {
            i64::MAX
        } else {
            s as i64
        }
    }

    /// The unit vector in this direction, or zero if the vector is zero.
    pub fn normalize_or_zero(&self) -> (r: FxVec3)
        ensures
            r == normalize_s(*self),
    {
        let m = self.magnitude();
        if m == 0 {
            FxVec3 { x: 0, y: 0, z: 0 }
        } else {
            FxVec3 { x: fx_div(self.x, m), y: fx_div(self.y, m), z: fx_div(self.z, m) }
        }
    }
}

/// Length of the 2D vector (x, z) in Q16.16.
pub fn magnitude2(x: i64, z: i64) -> (r: i64)
    ensures
        r == magnitude2_s(x as int, z as int),
        r >= 0,
{
    let xx = square_abs(x);
    let zz = square_abs(z);
    let s: u64 = isqrt(xx + zz);
    if s > i64::MAX as u64 {
        i64::MAX
    } else {
        s as i64
    }
}

/// The square of `v` as an unsigned 128-bit value.
fn square_abs(v: i64) -> (r: u128)
    ensures
        r as int == (v as int) * (v as int),
        r <= 0x4000_0000_0000_0000_0000_0000_0000_0000u128,
{
    let w: i128 = v as i128;
    let a: u128 = if w >= 0 {
        w as u128
    } else {
        (-w) as u128
    };
    proof {
        assert(a as int * a as int == v as int * v as int
            && a as int * a as int <= 0x4000_0000_0000_0000_0000_0000_0000_0000)
            by (nonlinear_arith)
            requires
                a as int == if v as int >= 0 { v as int } else { -(v as int) },
                -0x8000_0000_0000_0000 <= v as int <= 0x7fff_ffff_ffff_ffff;
    }
    a * a
}

pub open spec fn mat4_row_s(a: int, b: int, c: int, d: int, v: FxVec4) -> int {
    fx_add_s(
        fx_add_s(fx_mul_s(a, v.x as int), fx_mul_s(b, v.y as int)),
        fx_add_s(fx_mul_s(c, v.z as int), fx_mul_s(d, v.w as int)),
    )
}

pub open spec fn mat4_mul_vec4_s(m: FxMat4, v: FxVec4) -> FxVec4 {
    FxVec4 {
        x: mat4_row_s(m.m00 as int, m.m01 as int, m.m02 as int, m.m03 as int, v) as i64,
        y: mat4_row_s(m.m10 as int, m.m11 as int, m.m12 as int, m.m13 as int, v) as i64,
        z: mat4_row_s(m.m20 as int, m.m21 as int, m.m22 as int, m.m23 as int, v) as i64,
        w: mat4_row_s(m.m30 as int, m.m31 as int, m.m32 as int, m.m33 as int, v) as i64,
    }
}

pub open spec fn mat3_row_s(a: int, b: int, c: int, v: FxVec3) -> int {
    fx_add_s(
        fx_add_s(fx_mul_s(a, v.x as int), fx_mul_s(b, v.y as int)),
        fx_mul_s(c, v.z as int),
    )
}

pub open spec fn mat3_mul_vec3_s(m: FxMat3, v: FxVec3) -> FxVec3 {
    FxVec3 {
        x: mat3_row_s(m.m00 as int, m.m01 as int, m.m02 as int, v) as i64,
        y: mat3_row_s(m.m10 as int, m.m11 as int, m.m12 as int, v) as i64,
        z: mat3_row_s(m.m20 as int, m.m21 as int, m.m22 as int, v) as i64,
    }
}

pub open spec fn mat3_transpose_s(m: FxMat3) -> FxMat3 {
    FxMat3 {
        m00: m.m00, m01: m.m10, m02: m.m20,
        m10: m.m01, m11: m.m11, m12: m.m21,
        m20: m.m02, m21: m.m12, m22: m.m22,
    }
}

/// 2x2 minor a*d - b*c in fixed point.
pub open spec fn minor_s(a: int, b: int, c: int, d: int) -> int {
    fx_sub_s(fx_mul_s(a, d), fx_mul_s(b, c))
}

/// Determinant by cofactor expansion along the first row, in fixed point.
pub open spec fn mat3_det_s(m: FxMat3) -> int {
    fx_add_s(
        fx_sub_s(
            fx_mul_s(m.m00 as int, minor_s(m.m11 as int, m.m12 as int, m.m21 as int, m.m22 as int)),
            fx_mul_s(m.m01 as int, minor_s(m.m10 as int, m.m12 as int, m.m20 as int, m.m22 as int)),
        ),
        fx_mul_s(m.m02 as int, minor_s(m.m10 as int, m.m11 as int, m.m20 as int, m.m21 as int)),
    )
}

pub open spec fn mat3_identity_s() -> FxMat3 {
    FxMat3 {
        m00: FX_ONE, m01: 0, m02: 0,
        m10: 0, m11: FX_ONE, m12: 0,
        m20: 0, m21: 0, m22: FX_ONE,
    }
}

/// The adjugate divided by the determinant, entry by entry; the identity
/// when the fixed-point determinant is zero.
pub open spec fn mat3_inverse_s(m: FxMat3) -> FxMat3 {
    let det = mat3_det_s(m);
    if det == 0 {
        mat3_identity_s()
    } else {
        FxMat3 {
            m00: fx_div_s(minor_s(m.m11 as int, m.m12 as int, m.m21 as int, m.m22 as int), det) as i64,
            m01: fx_div_s(minor_s(m.m02 as int, m.m01 as int, m.m22 as int, m.m21 as int), det) as i64,
            m02: fx_div_s(minor_s(m.m01 as int, m.m02 as int, m.m11 as int, m.m12 as int), det) as i64,
            m10: fx_div_s(minor_s(m.m12 as int, m.m10 as int, m.m22 as int, m.m20 as int), det) as i64,
            m11: fx_div_s(minor_s(m.m00 as int, m.m02 as int, m.m20 as int, m.m22 as int), det) as i64,
            m12: fx_div_s(minor_s(m.m02 as int, m.m00 as int, m.m12 as int, m.m10 as int), det) as i64,
            m20: fx_div_s(minor_s(m.m10 as int, m.m11 as int, m.m20 as int, m.m21 as int), det) as i64,
            m21: fx_div_s(minor_s(m.m01 as int, m.m00 as int, m.m21 as int, m.m20 as int), det) as i64,
            m22: fx_div_s(minor_s(m.m00 as int, m.m01 as int, m.m10 as int, m.m11 as int), det) as i64,
        }
    }
}

/// The upper-left 3x3 block of a 4x4 matrix.
pub open spec fn mat4_upper3_s(m: FxMat4) -> FxMat3 {
    FxMat3 {
        m00: m.m00, m01: m.m01, m02: m.m02,
        m10: m.m10, m11: m.m11, m12: m.m12,
        m20: m.m20, m21: m.m21, m22: m.m22,
    }
}

/// 2x2 minor a*d - b*c in fixed point.
fn minor(a: i64, b: i64, c: i64, d: i64) -> (r: i64)
    ensures
        r == minor_s(a as int, b as int, c as int, d as int),
{
    fx_sub(fx_mul(a, d), fx_mul(b, c))
}

impl FxMat3 {
    pub fn identity() -> (m: FxMat3)
        ensures
            m == mat3_identity_s(),
    {
        FxMat3 {
            m00: FX_ONE, m01: 0, m02: 0,
            m10: 0, m11: FX_ONE, m12: 0,
            m20: 0, m21: 0, m22: FX_ONE,
        }
    }

    pub fn transpose(&self) -> (r: FxMat3)
        ensures
            r == mat3_transpose_s(*self),
    {
        FxMat3 {
            m00: self.m00, m01: self.m10, m02: self.m20,
            m10: self.m01, m11: self.m11, m12: self.m21,
            m20: self.m02, m21: self.m12, m22: self.m22,
        }
    }

    /// Fixed-point determinant.
    pub fn det(&self) -> (r: i64)
        ensures
            r == mat3_det_s(*self),
    {
        fx_add(
            fx_sub(
                fx_mul(self.m00, minor(self.m11, self.m12, self.m21, self.m22)),
                fx_mul(self.m01, minor(self.m10, self.m12, self.m20, self.m22)),
            ),
            fx_mul(self.m02, minor(self.m10, self.m11, self.m20, self.m21)),
        )
    }

    /// The fixed-point inverse, or the identity when the determinant is
    /// zero (the singular fallback of the normal transform).
    pub fn inverse_or_identity(&self) -> (r: FxMat3)
        ensures
            r == mat3_inverse_s(*self),
    {
        let det = self.det();
        if det == 0 {
            FxMat3::identity()
        } else {
            FxMat3 {
                m00: fx_div(minor(self.m11, self.m12, self.m21, self.m22), det),
                m01: fx_div(minor(self.m02, self.m01, self.m22, self.m21), det),
                m02: fx_div(minor(self.m01, self.m02, self.m11, self.m12), det),
                m10: fx_div(minor(self.m12, self.m10, self.m22, self.m20), det),
                m11: fx_div(minor(self.m00, self.m02, self.m20, self.m22), det),
                m12: fx_div(minor(self.m02, self.m00, self.m12, self.m10), det),
                m20: fx_div(minor(self.m10, self.m11, self.m20, self.m21), det),
                m21: fx_div(minor(self.m01, self.m00, self.m21, self.m20), det),
                m22: fx_div(minor(self.m00, self.m01, self.m10, self.m11), det),
            }
        }
    }

    pub fn mul_vec3(&self, v: &FxVec3) -> (r: FxVec3)
        ensures
            r == mat3_mul_vec3_s(*self, *v),
    {
        FxVec3 {
            x: fx_add(
                fx_add(fx_mul(self.m00, v.x), fx_mul(self.m01, v.y)),
                fx_mul(self.m02, v.z),
            ),
            y: fx_add(
                fx_add(fx_mul(self.m10, v.x), fx_mul(self.m11, v.y)),
                fx_mul(self.m12, v.z),
            ),
            z: fx_add(
                fx_add(fx_mul(self.m20, v.x), fx_mul(self.m21, v.y)),
                fx_mul(self.m22, v.z),
            ),
        }
    }
}

impl FxMat4 {
    pub fn identity() -> (m: FxMat4)
        ensures
            m == (FxMat4 {
                m00: FX_ONE, m01: 0, m02: 0, m03: 0,
                m10: 0, m11: FX_ONE, m12: 0, m13: 0,
                m20: 0, m21: 0, m22: FX_ONE, m23: 0,
                m30: 0, m31: 0, m32: 0, m33: FX_ONE,
            }),
    {
        FxMat4 {
            m00: FX_ONE, m01: 0, m02: 0, m03: 0,
            m10: 0, m11: FX_ONE, m12: 0, m13: 0,
            m20: 0, m21: 0, m22: FX_ONE, m23: 0,
            m30: 0, m31: 0, m32: 0, m33: FX_ONE,
        }
    }

    pub fn mul_vec4(&self, v: &FxVec4) -> (r: FxVec4)
        ensures
            r == mat4_mul_vec4_s(*self, *v),
    {
        FxVec4 {
            x: fx_add(
                fx_add(fx_mul(self.m00, v.x), fx_mul(self.m01, v.y)),
                fx_add(fx_mul(self.m02, v.z), fx_mul(self.m03, v.w)),
            ),
            y: fx_add(
                fx_add(fx_mul(self.m10, v.x), fx_mul(self.m11, v.y)),
                fx_add(fx_mul(self.m12, v.z), fx_mul(self.m13, v.w)),
            ),
            z: fx_add(
                fx_add(fx_mul(self.m20, v.x), fx_mul(self.m21, v.y)),
                fx_add(fx_mul(self.m22, v.z), fx_mul(self.m23, v.w)),
            ),
            w: fx_add(
                fx_add(fx_mul(self.m30, v.x), fx_mul(self.m31, v.y)),
                fx_add(fx_mul(self.m32, v.z), fx_mul(self.m33, v.w)),
            ),
        }
    }

    /// The upper-left 3x3 block.
    pub fn upper3(&self) -> (r: FxMat3)
        ensures
            r == mat4_upper3_s(*self),
    {
        FxMat3 {
            m00: self.m00, m01: self.m01, m02: self.m02,
            m10: self.m10, m11: self.m11, m12: self.m12,
            m20: self.m20, m21: self.m21, m22: self.m22,
        }
    }
}

} // verus!
