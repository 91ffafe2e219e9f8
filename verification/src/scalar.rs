//! Scalars as IEEE 754 single-precision bit patterns.
//!
//! Every scalar the simulation touches is carried as the `u32` bit pattern
//! of an `f32`. The arithmetic primitives are trusted wrappers around std's
//! float operations, and each names its result with an uninterpreted spec
//! function — but only up to NaN payloads. Correct rounding makes the
//! value of a basic operation a function of the operand bits alone when
//! the result is not a NaN, and it makes *whether* the result is a NaN a
//! function of the operand bits; the payload of a NaN result, however, is
//! left open by IEEE 754 and genuinely differs between platforms. The
//! wrappers therefore claim the named result only after `canon_bits`,
//! which collapses every NaN to one canonical pattern, and the canonical
//! model operations (`add_can` and friends) canonicalize their operands
//! and result, so that they are well defined whatever payloads the
//! hardware chose.
//!
//! Classification predicates (NaN, finiteness, zero) are defined exactly
//! over the bit patterns, as the IEEE 754 encoding lays them out.

use vstd::prelude::*;

verus! {

/// Bit pattern of the `f32` value 0.0.
pub const F32_ZERO: u32 = 0x0000_0000;

/// Bit pattern of the `f32` value 1.0.
pub const F32_ONE: u32 = 0x3F80_0000;

/// Bit pattern of the `f32` value -1.0.
pub const F32_NEG_ONE: u32 = 0xBF80_0000;

/// Bit pattern of the `f32` value 8.0.
pub const F32_EIGHT: u32 = 0x4100_0000;

/// Bit pattern of the `f32` value nearest one third.
pub const F32_THIRD: u32 = 0x3EAA_AAAB;

/// Bit pattern of the `f32` value 0.5.
pub const F32_HALF: u32 = 0x3F00_0000;

/// Bit pattern of the `f32` value nearest two pi.
pub const F32_TAU: u32 = 0x40C9_0FDB;

/// Bit pattern of the largest `f32` value whose cosine is still known to
/// be non-negative: the largest representable value below pi over two.
pub const F32_BELOW_HALF_PI: u32 = 0x3FC9_0FDA;

/// Bit pattern of the largest finite `f32` value.
pub const F32_MAX_FINITE: u32 = 0x7F7F_FFFF;

/// The canonical quiet-NaN bit pattern every NaN is collapsed to in the
/// model.
pub const F32_NAN_CANONICAL: u32 = 0x7FC0_0000;

/// Bit pattern of the `f32` value 5000.0: the singularity-guard constant.
/// A pair of bodies contributes a force only while the reciprocal of their
/// distance stays below this constant divided by the time step.
pub const SINGULARITY_THRESHOLD: u32 = 0x459C_4000;

/// The exponent field of the bit pattern is all ones and the mantissa is
/// not zero: the pattern encodes a NaN.
pub open spec fn nan_bits(a: u32) -> bool {
    (a & 0x7F80_0000u32) == 0x7F80_0000u32 && (a & 0x007F_FFFFu32) != 0u32
}

/// The exponent field is not all ones: the pattern encodes a finite value.
pub open spec fn finite_bits(a: u32) -> bool {
    (a & 0x7F80_0000u32) != 0x7F80_0000u32
}

/// The pattern encodes a positive or a negative zero.
pub open spec fn zero_bits(a: u32) -> bool {
    (a & 0x7FFF_FFFFu32) == 0u32
}

/// The pattern with every NaN collapsed to the one canonical quiet NaN;
/// any other pattern stands for itself. Two patterns with equal images
/// under this map encode the same behaviour in every IEEE 754 operation.
pub open spec fn canon_bits(a: u32) -> u32 {
    if nan_bits(a) {
        F32_NAN_CANONICAL
    } else {
        a
    }
}

/// The pattern encodes a non-negative finite value no greater than half
/// the largest finite f32: exactly the values `a` for which the
/// symmetric interval [-a, a] has a finite width, so a sampler over that
/// interval cannot be rejected.
pub open spec fn symmetric_range_finite(a: u32) -> bool {
    a <= 0x7EFF_FFFFu32
}

/// IEEE 754 equality over bit patterns: NaN equals nothing, the two zeros
/// equal each other, and any other value equals exactly its own pattern.
pub open spec fn feq_bits(a: u32, b: u32) -> bool {
    !nan_bits(a) && !nan_bits(b) && (a == b || (zero_bits(a) && zero_bits(b)))
}

/// The canonicalized bit pattern of the f32 sum of two canonical operands.
pub uninterp spec fn add_bits(a: u32, b: u32) -> u32;

/// The canonicalized bit pattern of the f32 difference of two canonical
/// operands.
pub uninterp spec fn sub_bits(a: u32, b: u32) -> u32;

/// The canonicalized bit pattern of the f32 product of two canonical
/// operands.
pub uninterp spec fn mul_bits(a: u32, b: u32) -> u32;

/// The canonicalized bit pattern of the f32 quotient of two canonical
/// operands.
pub uninterp spec fn div_bits(a: u32, b: u32) -> u32;

/// The canonicalized bit pattern of the f32 square root of a canonical
/// operand.
pub uninterp spec fn sqrt_bits(a: u32) -> u32;

/// Whether the first canonical operand compares strictly less than the
/// second under IEEE 754 ordering (false whenever either operand is a
/// NaN).
pub uninterp spec fn lt_bits(a: u32, b: u32) -> bool;

/// The bit pattern of the f32 nearest to the given integer.
pub uninterp spec fn usize_bits(n: usize) -> u32;

/// The model's addition: canonicalize the operands, apply the named sum,
/// canonicalize the result.
pub open spec fn add_can(a: u32, b: u32) -> u32 {
    canon_bits(add_bits(canon_bits(a), canon_bits(b)))
}

/// The model's subtraction.
pub open spec fn sub_can(a: u32, b: u32) -> u32 {
    canon_bits(sub_bits(canon_bits(a), canon_bits(b)))
}

/// The model's multiplication.
pub open spec fn mul_can(a: u32, b: u32) -> u32 {
    canon_bits(mul_bits(canon_bits(a), canon_bits(b)))
}

/// The model's division.
pub open spec fn div_can(a: u32, b: u32) -> u32 {
    canon_bits(div_bits(canon_bits(a), canon_bits(b)))
}

/// The model's square root.
pub open spec fn sqrt_can(a: u32) -> u32 {
    canon_bits(sqrt_bits(canon_bits(a)))
}

/// The model's strict ordering.
pub open spec fn lt_can(a: u32, b: u32) -> bool {
    lt_bits(canon_bits(a), canon_bits(b))
}

/// Relies on f32 addition: correctly rounded, so the sum is a function of
/// the operand bit patterns alone, except for the payload of a NaN
/// result, which IEEE 754 leaves to the platform. The operands are
/// rebuilt from their bit patterns with bytemuck and a glam splat.
#[verifier::external_body]
pub(crate) fn f32_add(a: u32, b: u32) -> (r: u32)
    ensures
        canon_bits(r) == add_can(a, b),
        !nan_bits(r) ==> r == add_bits(canon_bits(a), canon_bits(b)),
{
    let fb = |bits: u32| glam::Vec3::splat(bytemuck::cast(bits)).x;
    (fb(a) + fb(b)).to_bits()
}

/// Relies on f32 subtraction: correctly rounded, a function of the
/// operand bit patterns alone up to NaN payloads.
#[verifier::external_body]
pub(crate) fn f32_sub(a: u32, b: u32) -> (r: u32)
    ensures
        canon_bits(r) == sub_can(a, b),
        !nan_bits(r) ==> r == sub_bits(canon_bits(a), canon_bits(b)),
{
    let fb = |bits: u32| glam::Vec3::splat(bytemuck::cast(bits)).x;
    (fb(a) - fb(b)).to_bits()
}

/// Relies on f32 multiplication: correctly rounded, a function of the
/// operand bit patterns alone up to NaN payloads. The two conditional
/// clauses state IEEE monotonicity: scaling a finite value by a factor
/// in [0, 1] cannot increase its magnitude, and scaling a non-negative
/// finite value by such a factor lands in [0, that value].
#[verifier::external_body]
pub(crate) fn f32_mul(a: u32, b: u32) -> (r: u32)
    ensures
        canon_bits(r) == mul_can(a, b),
        !nan_bits(r) ==> r == mul_bits(canon_bits(a), canon_bits(b)),
        a <= F32_ONE && b <= F32_MAX_FINITE ==> r <= b,
        (a & 0x7FFF_FFFFu32) <= F32_MAX_FINITE && b <= F32_ONE ==> (r & 0x7FFF_FFFFu32) <= (a
            & 0x7FFF_FFFFu32),
{
    let fb = |bits: u32| glam::Vec3::splat(bytemuck::cast(bits)).x;
    (fb(a) * fb(b)).to_bits()
}

/// Relies on f32 division: correctly rounded (division by zero yields an
/// infinity, never a panic), a function of the operand bit patterns alone
/// up to NaN payloads.
#[verifier::external_body]
pub(crate) fn f32_div(a: u32, b: u32) -> (r: u32)
    ensures
        canon_bits(r) == div_can(a, b),
        !nan_bits(r) ==> r == div_bits(canon_bits(a), canon_bits(b)),
{
    let fb = |bits: u32| glam::Vec3::splat(bytemuck::cast(bits)).x;
    (fb(a) / fb(b)).to_bits()
}

/// Relies on f32's `sqrt`: correctly rounded, a function of the operand
/// bit pattern alone up to the payload of the NaN a negative operand
/// yields.
#[verifier::external_body]
pub(crate) fn f32_sqrt(a: u32) -> (r: u32)
    ensures
        canon_bits(r) == sqrt_can(a),
        !nan_bits(r) ==> r == sqrt_bits(canon_bits(a)),
{
    let fb = |bits: u32| glam::Vec3::splat(bytemuck::cast(bits)).x;
    fb(a).sqrt().to_bits()
}

/// Relies on f32's `<` operator: IEEE 754 ordering, a total deterministic
/// predicate over the operand bit patterns (every NaN compares false, so
/// payloads cannot matter).
#[verifier::external_body]
pub(crate) fn f32_lt(a: u32, b: u32) -> (r: bool)
    ensures
        r == lt_bits(canon_bits(a), canon_bits(b)),
{
    let fb = |bits: u32| glam::Vec3::splat(bytemuck::cast(bits)).x;
    fb(a) < fb(b)
}

/// Relies on f32's `powf`. Its precision is platform-dependent, so the
/// result is not named; what every platform's `pow` gives is the range:
/// a base in [0, 1] raised to an exponent in [0, 1] stays in [0, 1].
#[verifier::external_body]
pub(crate) fn f32_powf(a: u32, e: u32) -> (r: u32)
    ensures
        a <= F32_ONE && e <= F32_ONE ==> r <= F32_ONE,
{
    let fb = |bits: u32| glam::Vec3::splat(bytemuck::cast(bits)).x;
    fb(a).powf(fb(e)).to_bits()
}

/// Relies on f32's `cos`. Its precision is platform-dependent, so the
/// result is not named; what every platform gives is the range: the
/// cosine of a finite value lies in [-1, 1], and on [0, pi/2) — where
/// the true cosine is bounded away from zero by far more than the
/// permitted error — it lies in [0, 1].
#[verifier::external_body]
pub(crate) fn f32_cos(a: u32) -> (r: u32)
    ensures
        finite_bits(a) ==> (r & 0x7FFF_FFFFu32) <= F32_ONE,
        (a & 0x7FFF_FFFFu32) <= F32_BELOW_HALF_PI ==> r <= F32_ONE,
{
    let fb = |bits: u32| glam::Vec3::splat(bytemuck::cast(bits)).x;
    fb(a).cos().to_bits()
}

/// Relies on glam's `UVec3::as_vec3` (an integer-to-float cast per lane):
/// rounds to the nearest representable value, a function of the integer
/// alone, never a NaN.
#[verifier::external_body]
pub(crate) fn f32_of_usize(n: usize) -> (r: u32)
    requires
        n <= u32::MAX,
    ensures
        r == usize_bits(n),
        !nan_bits(r),
{
    glam::UVec3::splat(n as u32).as_vec3().x.to_bits()
}

/// A pattern no greater than the largest finite value has a clear sign
/// bit and an exponent field below all-ones, so it cannot encode a NaN
/// (nor an infinity).
pub proof fn lemma_small_bits_not_nan(a: u32)
    requires
        a <= F32_MAX_FINITE,
    ensures
        !nan_bits(a),
{
    assert(a <= 0x7F7F_FFFFu32 ==> (a & 0x7F80_0000u32) != 0x7F80_0000u32) by (bit_vector);
}

/// The canonical NaN pattern is itself a NaN, so collapsing twice is
/// the same as collapsing once.
pub broadcast proof fn lemma_canon_idempotent(a: u32)
    ensures
        #[trigger] canon_bits(canon_bits(a)) == canon_bits(a),
{
    assert((0x7FC0_0000u32 & 0x7F80_0000u32) == 0x7F80_0000u32 && (0x7FC0_0000u32
        & 0x007F_FFFFu32) != 0u32) by (bit_vector);
}

/// A pattern no greater than the largest finite value is its own
/// canonical form.
pub proof fn lemma_canon_fixed(a: u32)
    requires
        a <= F32_MAX_FINITE,
    ensures
        canon_bits(a) == a,
{
    lemma_small_bits_not_nan(a);
}

/// IEEE 754 negation is exactly a flip of the sign bit, for every
/// pattern including NaNs, so it needs no float operation at all.
pub fn flip_sign(a: u32) -> (r: u32)
    ensures
        r == (a ^ 0x8000_0000u32),
{
    a ^ 0x8000_0000
}

} // verus!
