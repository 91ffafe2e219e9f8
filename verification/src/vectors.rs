//! 3- and 4-wide scalar records over f32 bit patterns.
//!
//! `Vec4B` mirrors the 4-wide `[f32; 4]` layout the device buffers use
//! (three spatial coordinates plus one padding/homogeneous lane); `Vec3B`
//! carries plain 3-vectors such as the galaxy's axis frame. The vector
//! operations the simulation needs — scaling, the cross product, safe
//! normalization — are verified compositions of the scalar primitives;
//! only the reciprocal length itself is a trusted glam call.

use vstd::prelude::*;

use crate::scalar::F32_MAX_FINITE;
use crate::scalar::F32_ZERO;
use crate::scalar::canon_bits;
use crate::scalar::f32_mul;
use crate::scalar::f32_sub;
use crate::scalar::feq_bits;
use crate::scalar::mul_can;
use crate::scalar::nan_bits;
use crate::scalar::sub_can;

verus! {

/// A 4-wide record of f32 bit patterns: three spatial lanes and one
/// padding/homogeneous lane, matching the device buffer layout.
#[derive(Clone, Copy, Debug, PartialEq, Eq, Structural)]
pub struct Vec4B {
    pub x: u32,
    pub y: u32,
    pub z: u32,
    pub w: u32,
}

/// A 3-wide record of f32 bit patterns.
#[derive(Clone, Copy, Debug, PartialEq, Eq, Structural)]
pub struct Vec3B {
    pub x: u32,
    pub y: u32,
    pub z: u32,
}

/// Each lane collapsed to its canonical pattern.
pub open spec fn canon3(v: Vec3B) -> Vec3B {
    Vec3B { x: canon_bits(v.x), y: canon_bits(v.y), z: canon_bits(v.z) }
}

/// Each lane collapsed to its canonical pattern.
pub open spec fn canon4(v: Vec4B) -> Vec4B {
    Vec4B { x: canon_bits(v.x), y: canon_bits(v.y), z: canon_bits(v.z), w: canon_bits(v.w) }
}

/// IEEE 754 equality applied to each of the four lanes.
pub open spec fn v4_eq_bits(a: Vec4B, b: Vec4B) -> bool {
    feq_bits(a.x, b.x) && feq_bits(a.y, b.y) && feq_bits(a.z, b.z) && feq_bits(a.w, b.w)
}

/// Relies on glam's `Vec4` equality: IEEE 754 equality applied lane by
/// lane, exactly as two `[f32; 4]` records compare. A total deterministic
/// predicate of the lane bits (every NaN compares unequal, whatever its
/// payload).
#[verifier::external_body]
pub(crate) fn v4_float_eq(a: &Vec4B, b: &Vec4B) -> (r: bool)
    ensures
        r == v4_eq_bits(*a, *b),
{
    let fb = |bits: u32| glam::Vec3::splat(bytemuck::cast(bits)).x;
    glam::Vec4::new(fb(a.x), fb(a.y), fb(a.z), fb(a.w))
        == glam::Vec4::new(fb(b.x), fb(b.y), fb(b.z), fb(b.w))
}

/// The canonicalized bit pattern of the reciprocal of the Euclidean
/// length of the 3-vector with the given canonical component patterns.
pub uninterp spec fn length_recip_bits(x: u32, y: u32, z: u32) -> u32;

/// The model's reciprocal length: canonicalize the components, apply the
/// named reciprocal length, canonicalize the result.
pub open spec fn length_recip_can(x: u32, y: u32, z: u32) -> u32 {
    canon_bits(length_recip_bits(canon_bits(x), canon_bits(y), canon_bits(z)))
}

/// Relies on glam's `Vec3::length_recip`: a fixed-association dot
/// product, a square root, and a division, all correctly rounded, so the
/// result is a function of the component bit patterns alone up to NaN
/// payloads.
#[verifier::external_body]
pub(crate) fn vec3_length_recip(x: u32, y: u32, z: u32) -> (r: u32)
    ensures
        canon_bits(r) == length_recip_can(x, y, z),
        !nan_bits(r) ==> r == length_recip_bits(canon_bits(x), canon_bits(y), canon_bits(z)),
{
    let fb = |bits: u32| glam::Vec3::splat(bytemuck::cast(bits)).x;
    glam::Vec3::new(fb(x), fb(y), fb(z)).length_recip().to_bits()
}

/// The componentwise f32 product of a 3-vector and a scalar, with the
/// vector lane as the left operand, as glam's `Vec3 * f32` computes it.
pub open spec fn scale3_bits(v: Vec3B, s: u32) -> Vec3B {
    Vec3B { x: mul_can(v.x, s), y: mul_can(v.y, s), z: mul_can(v.z, s) }
}

/// Scales a 3-vector by a scalar, lane by lane.
pub fn scale3(v: &Vec3B, s: u32) -> (r: Vec3B)
    ensures
        canon3(r) == scale3_bits(*v, s),
    {
    Vec3B { x: f32_mul(v.x, s), y: f32_mul(v.y, s), z: f32_mul(v.z, s) }
}

/// The cross product's model, in glam's exact operand order:
/// `(a.y*b.z - b.y*a.z, a.z*b.x - b.z*a.x, a.x*b.y - b.x*a.y)`.
pub open spec fn cross3_bits(a: Vec3B, b: Vec3B) -> Vec3B {
    Vec3B {
        x: sub_can(mul_can(a.y, b.z), mul_can(b.y, a.z)),
        y: sub_can(mul_can(a.z, b.x), mul_can(b.z, a.x)),
        z: sub_can(mul_can(a.x, b.y), mul_can(b.x, a.y)),
    }
}

/// The cross product of two 3-vectors, composed lane by lane from the
/// scalar primitives in glam's operand order.
pub fn cross3(a: &Vec3B, b: &Vec3B) -> (r: Vec3B)
    ensures
        canon3(r) == cross3_bits(*a, *b),
{
    Vec3B {
        x: f32_sub(f32_mul(a.y, b.z), f32_mul(b.y, a.z)),
        y: f32_sub(f32_mul(a.z, b.x), f32_mul(b.z, a.x)),
        z: f32_sub(f32_mul(a.x, b.y), f32_mul(b.x, a.y)),
    }
}

/// The model of safe normalization: scale by the reciprocal length when
/// that reciprocal is a positive finite value, else the zero vector —
/// the decision glam's `normalize_or_zero` takes, expressed over the bit
/// patterns (the positive finite non-zero patterns are exactly the
/// interval [1, largest finite]).
pub open spec fn normalize_or_zero3_bits(v: Vec3B) -> Vec3B {
    let rcp = length_recip_can(v.x, v.y, v.z);
    if 1 <= rcp <= F32_MAX_FINITE {
        scale3_bits(v, rcp)
    } else {
        Vec3B { x: F32_ZERO, y: F32_ZERO, z: F32_ZERO }
    }
}

/// Normalizes a 3-vector to length one, or yields the zero vector when
/// the input's length is zero or not finite — the same branch glam's
/// `normalize_or_zero` takes, decided here on the reciprocal length's
/// bit pattern: `rcp` is finite and positive exactly when its bits lie
/// in [1, largest finite], whatever payload a NaN carries.
pub fn normalize_or_zero3(v: &Vec3B) -> (r: Vec3B)
    ensures
        canon3(r) == normalize_or_zero3_bits(*v),
{
    let rcp = vec3_length_recip(v.x, v.y, v.z);
    if 1 <= rcp && rcp <= F32_MAX_FINITE {
        proof {
            crate::scalar::lemma_small_bits_not_nan(rcp);
            assert(canon_bits(rcp) == rcp);
            assert(length_recip_can(v.x, v.y, v.z) == rcp);
        }
        let scaled = scale3(v, rcp);
        proof {
            assert(canon3(scaled) == scale3_bits(*v, rcp));
            assert(normalize_or_zero3_bits(*v) == scale3_bits(*v, rcp));
        }
        scaled
    } else {
        proof {
            let rcp_can = length_recip_can(v.x, v.y, v.z);
            assert(rcp_can == canon_bits(rcp));
            assert(!(1 <= rcp_can <= F32_MAX_FINITE));
            crate::scalar::lemma_canon_fixed(F32_ZERO);
        }
        Vec3B { x: F32_ZERO, y: F32_ZERO, z: F32_ZERO }
    }
}

} // verus!
