//! The initial-condition generator: a disc-shaped stellar distribution
//! with a dominant central mass.
//!
//! An orthonormal frame is built from the `up` axis; each body draws a
//! radius (cube-root transformed, which approximates uniform areal
//! density), an azimuth, and a tapered out-of-plane angle, is placed by
//! rotating the radial axis through those angles, and receives the
//! circular-orbit speed along the rotated azimuthal axis.
//!
//! Only the irreducible outside work is trusted: the three random draws,
//! the `powf`/`cos` primitives (platform-precision, carrying range facts
//! only), and the quaternion rotation. The frame construction, the
//! radius and taper transforms with their bounds, and the orbit-speed
//! formula are verified compositions of the scalar primitives. The
//! assembly is verified too: the store is well formed, body 0 is forced
//! to the origin at rest with mass `count / 8`, every other body has
//! unit mass, a position scaled from a radius within the disc bound,
//! and a velocity scaled by the circular-orbit speed at that radius.

use vstd::prelude::*;

use rand::Rng;

use crate::buffers::zero4;
use crate::scalar::F32_BELOW_HALF_PI;
use crate::scalar::F32_EIGHT;
use crate::scalar::F32_HALF;
use crate::scalar::F32_MAX_FINITE;
use crate::scalar::F32_ONE;
use crate::scalar::F32_TAU;
use crate::scalar::F32_THIRD;
use crate::scalar::F32_ZERO;
use crate::scalar::canon_bits;
use crate::scalar::div_can;
use crate::scalar::f32_add;
use crate::scalar::f32_cos;
use crate::scalar::f32_div;
use crate::scalar::f32_mul;
use crate::scalar::f32_of_usize;
use crate::scalar::f32_powf;
use crate::scalar::f32_sqrt;
use crate::scalar::flip_sign;
use crate::scalar::lemma_canon_idempotent;
use crate::scalar::mul_can;
use crate::scalar::sqrt_can;
use crate::scalar::symmetric_range_finite;
use crate::scalar::usize_bits;
use crate::store::UnbufferedBodyData;
use crate::vectors::Vec3B;
use crate::vectors::Vec4B;
use crate::vectors::cross3;
use crate::vectors::normalize_or_zero3;
use crate::vectors::scale3;

verus! {

broadcast use lemma_canon_idempotent;

/// The galactic center's position: the origin, with a unit homogeneous
/// lane.
pub open spec fn origin_position() -> Vec4B {
    Vec4B { x: F32_ZERO, y: F32_ZERO, z: F32_ZERO, w: F32_ONE }
}

/// Relies on rand's `random_range`: one uniform draw from [0, 1]. The
/// draw is random, so only the range is promised — the result's bits
/// never exceed the pattern of 1.0 (non-negative patterns order as their
/// bits do).
#[verifier::external_body]
fn sample_unit_interval() -> (r: u32)
    ensures
        r <= F32_ONE,
{
    let fb = |bits: u32| glam::Vec3::splat(bytemuck::cast(bits)).x;
    rand::rng().random_range(fb(F32_ZERO)..=fb(F32_ONE)).to_bits()
}

/// Relies on rand's `random_range`: one uniform azimuth draw from
/// [0, two pi).
#[verifier::external_body]
fn sample_azimuth() -> (r: u32)
    ensures
        r < F32_TAU,
{
    let fb = |bits: u32| glam::Vec3::splat(bytemuck::cast(bits)).x;
    rand::rng().random_range(fb(F32_ZERO)..fb(F32_TAU)).to_bits()
}

/// Relies on rand's `random_range`: one uniform draw from
/// [-max_phi, max_phi]. The bound must be non-negative and at most half
/// the largest finite value, else rand rejects the range; the result's
/// magnitude bits never exceed the bound's.
#[verifier::external_body]
fn sample_symmetric_angle(max_phi: u32) -> (r: u32)
    requires
        symmetric_range_finite(max_phi),
    ensures
        (r & 0x7FFF_FFFFu32) <= max_phi,
{
    let fb = |bits: u32| glam::Vec3::splat(bytemuck::cast(bits)).x;
    let mp = fb(max_phi);
    rand::rng().random_range(-mp..=mp).to_bits()
}

/// Relies on glam's `Quat::from_scaled_axis` and `mul_vec3`: rotates a
/// vector by the rotation the scaled axis encodes (the scaling itself is
/// done by the verified `scale3`). The trigonometry inside is
/// platform-precision, so nothing is promised of the result.
#[verifier::external_body]
fn rotate_scaled(scaled_axis: &Vec3B, v: &Vec3B) -> (r: Vec3B)
{
    let fb = |bits: u32| glam::Vec3::splat(bytemuck::cast(bits)).x;
    let a = glam::Vec3::new(fb(scaled_axis.x), fb(scaled_axis.y), fb(scaled_axis.z));
    let q = glam::Quat::from_scaled_axis(a);
    let rot = q.mul_vec3(glam::Vec3::new(fb(v.x), fb(v.y), fb(v.z)));
    Vec3B { x: rot.x.to_bits(), y: rot.y.to_bits(), z: rot.z.to_bits() }
}

/// Builds the disc's orthonormal frame from the `up` axis: the
/// normalized up axis, a radial axis perpendicular to it (from solving
/// `up . r == 0` with two unit components), and the azimuthal axis
/// completing the frame — each safely normalized.
fn galaxy_frame(up: &Vec3B) -> (r: (Vec3B, Vec3B, Vec3B)) {
    let up_n = normalize_or_zero3(up);
    let tilt = f32_div(f32_add(up_n.x, up_n.y), flip_sign(up_n.z));
    let r_axis = normalize_or_zero3(&Vec3B { x: F32_ONE, y: F32_ONE, z: tilt });
    let phi_axis = normalize_or_zero3(&cross3(&up_n, &r_axis));
    (up_n, r_axis, phi_axis)
}

/// Draws one body's polar coordinates: a cube-root-transformed radius,
/// an azimuth, and a taper-weighted out-of-plane angle.
///
/// The draws are random, but every outcome is bounded: the radius lies
/// in [0, max_radius] whenever max_radius is a non-negative finite
/// value; the azimuth lies in [0, two pi); and the tapered angle keeps
/// the sampled angle's bound [-max_phi, max_phi] whenever the opening
/// angle stays below pi over two (beyond that the taper's cosine may go
/// negative and its square root is no longer real).
pub fn sample_polar(max_radius: u32, max_phi: u32) -> (r: (u32, u32, u32))
    requires
        symmetric_range_finite(max_phi),
    ensures
        max_radius <= F32_MAX_FINITE ==> r.0 <= max_radius,
        r.1 < F32_TAU,
        max_phi <= F32_BELOW_HALF_PI ==> (r.2 & 0x7FFF_FFFFu32) <= max_phi,
{
    let u = sample_unit_interval();
    let cube_root = f32_powf(u, F32_THIRD);
    let radius = f32_mul(cube_root, max_radius);
    let theta = sample_azimuth();
    let phi0 = sample_symmetric_angle(max_phi);
    let taper = f32_powf(f32_cos(phi0), F32_HALF);
    let phi = f32_mul(phi0, taper);
    (radius, theta, phi)
}

/// The circular-orbit speed `sqrt(G * count / radius) * radius /
/// max_radius`: a flat rotation-curve approximation rather than a
/// Keplerian falloff, composed from the canonical scalar operations.
pub open spec fn orbit_speed_model(g: u32, star_count: usize, radius: u32, max_radius: u32) -> u32 {
    div_can(
        mul_can(sqrt_can(div_can(mul_can(g, usize_bits(star_count)), radius)), radius),
        max_radius,
    )
}

/// Computes the circular-orbit speed for one body at the sampled radius.
fn orbit_speed(g: u32, star_count: usize, radius: u32, max_radius: u32) -> (r: u32)
    requires
        star_count <= u32::MAX,
    ensures
        canon_bits(r) == orbit_speed_model(g, star_count, radius, max_radius),
{
    let galactic_mass = f32_of_usize(star_count);
    let speed = f32_sqrt(f32_div(f32_mul(g, galactic_mass), radius));
    f32_div(f32_mul(speed, radius), max_radius)
}

/// One generated star's shape: its position is some direction scaled
/// lane by lane by a sampled radius within the disc bound, and its
/// velocity is some direction scaled by the circular-orbit speed at that
/// same radius; the padding lanes carry the device layout's constants.
pub open spec fn disc_star_witness(
    p: Vec4B,
    v: Vec4B,
    radius: u32,
    dir_p: Vec3B,
    dir_v: Vec3B,
    g: u32,
    star_count: usize,
    max_radius: u32,
) -> bool {
    &&& max_radius <= F32_MAX_FINITE ==> radius <= max_radius
    &&& canon_bits(p.x) == mul_can(dir_p.x, radius)
    &&& canon_bits(p.y) == mul_can(dir_p.y, radius)
    &&& canon_bits(p.z) == mul_can(dir_p.z, radius)
    &&& p.w == F32_ONE
    &&& canon_bits(v.x) == mul_can(dir_v.x, orbit_speed_model(g, star_count, radius, max_radius))
    &&& canon_bits(v.y) == mul_can(dir_v.y, orbit_speed_model(g, star_count, radius, max_radius))
    &&& canon_bits(v.z) == mul_can(dir_v.z, orbit_speed_model(g, star_count, radius, max_radius))
    &&& v.w == F32_ZERO
}

/// A body of the disc: for some sampled radius and some pair of rotated
/// directions, the body has the witnessed shape.
pub open spec fn is_disc_star(p: Vec4B, v: Vec4B, g: u32, star_count: usize, max_radius: u32) -> bool {
    exists|radius: u32, dir_p: Vec3B, dir_v: Vec3B|
        disc_star_witness(p, v, radius, dir_p, dir_v, g, star_count, max_radius)
}

/// Generates a disc-shaped stellar distribution of `star_count` bodies.
///
/// Every body other than body 0 is a disc star: unit mass, a position
/// scaled from a sampled radius that stays within [0, max_radius]
/// whenever that bound is finite, and a velocity scaled by the
/// circular-orbit speed at the same radius (the rotated directions
/// themselves are the trusted trigonometry's outcome and carry no
/// contract). Body 0 is forced to the origin at rest with mass
/// `star_count / 8`, the dominant central attractor.
///
/// At least one body must be asked for (body 0 is the reserved center),
/// and `max_phi` must be a non-negative angle no greater than half the
/// largest finite value, else the sampler's range would be rejected.
pub fn generate_galaxy(
    max_radius: u32,
    max_phi: u32,
    star_count: usize,
    up: Vec3B,
    gravitation_constant: u32,
) -> (r: UnbufferedBodyData)
    requires
        1 <= star_count <= u32::MAX,
        symmetric_range_finite(max_phi),
    ensures
        r.wf(),
        r.positions@.len() == star_count,
        r.positions@[0] == origin_position(),
        r.velocities@[0] == zero4(),
        canon_bits(r.mass@[0]) == div_can(usize_bits(star_count), F32_EIGHT),
        forall|k: int| 1 <= k < star_count ==> r.mass@[k] == F32_ONE,
        forall|k: int| 1 <= k < star_count ==> is_disc_star(
            r.positions@[k],
            r.velocities@[k],
            gravitation_constant,
            star_count,
            max_radius,
        ),
{
    let (up_n, r_axis, phi_axis) = galaxy_frame(&up);
    let mut positions: Vec<Vec4B> = Vec::new();
    let mut velocities: Vec<Vec4B> = Vec::new();
    let mut mass: Vec<u32> = Vec::new();
    let mut i: usize = 0;
    while i < star_count
        invariant
            star_count <= u32::MAX,
            symmetric_range_finite(max_phi),
            i <= star_count,
            positions@.len() == i,
            velocities@.len() == i,
            mass@.len() == i,
            forall|k: int| 0 <= k < i ==> mass@[k] == F32_ONE,
            forall|k: int| 0 <= k < i ==> is_disc_star(
                positions@[k],
                velocities@[k],
                gravitation_constant,
                star_count,
                max_radius,
            ),
        decreases star_count - i,
    {
        let (radius, theta, phi) = sample_polar(max_radius, max_phi);
        let phi_rotation = scale3(&phi_axis, phi);
        let theta_rotation = scale3(&up_n, theta);
        let tilted = rotate_scaled(&phi_rotation, &r_axis);
        let pos_dir = rotate_scaled(&theta_rotation, &tilted);
        let pos = scale3(&pos_dir, radius);
        let vel_dir = rotate_scaled(&theta_rotation, &phi_axis);
        let speed = orbit_speed(gravitation_constant, star_count, radius, max_radius);
        let vel = scale3(&vel_dir, speed);
        let star_pos = Vec4B { x: pos.x, y: pos.y, z: pos.z, w: F32_ONE };
        let star_vel = Vec4B { x: vel.x, y: vel.y, z: vel.z, w: F32_ZERO };
        proof {
            assert(disc_star_witness(
                star_pos,
                star_vel,
                radius,
                pos_dir,
                vel_dir,
                gravitation_constant,
                star_count,
                max_radius,
            ));
        }
        positions.push(star_pos);
        velocities.push(star_vel);
        mass.push(F32_ONE);
        i = i + 1;
    }

    // Body 0 is the reserved galactic center: at the origin, at rest,
    // with an eighth of the galaxy's combined stellar mass.
    positions.set(0, Vec4B { x: F32_ZERO, y: F32_ZERO, z: F32_ZERO, w: F32_ONE });
    velocities.set(0, Vec4B { x: F32_ZERO, y: F32_ZERO, z: F32_ZERO, w: F32_ZERO });
    let central_mass = f32_div(f32_of_usize(star_count), F32_EIGHT);
    mass.set(0, central_mass);
    UnbufferedBodyData { positions, velocities, mass }
}

} // verus!
