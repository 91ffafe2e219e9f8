//! Tests of the galaxy generator: the forced central body, the unit
//! stellar masses, and the sampled radii and disc angles staying inside
//! their bounds.

use gravity_sim::buffers::BodyData;
use gravity_sim::buffers::Compute;
use gravity_sim::galaxy::generate_galaxy;
use gravity_sim::physics::physics_tick;
use gravity_sim::vectors::Vec3B;

const MAX_RADIUS: f32 = 100.0;
const MAX_PHI: f32 = 0.5;

fn f(bits: u32) -> f32 {
    f32::from_bits(bits)
}

// The frame formula divides by the up axis's z component, so the disc
// axis must have a nonzero z lane; the disc then lies in the x-y plane.
fn up_z() -> Vec3B {
    Vec3B { x: 0.0f32.to_bits(), y: 0.0f32.to_bits(), z: 1.0f32.to_bits() }
}

#[test]
fn central_body_is_fixed() {
    let galaxy = generate_galaxy(
        MAX_RADIUS.to_bits(),
        MAX_PHI.to_bits(),
        1000,
        up_z(),
        2e-5f32.to_bits(),
    );
    assert_eq!(galaxy.positions.len(), 1000);
    assert_eq!(galaxy.velocities.len(), 1000);
    assert_eq!(galaxy.mass.len(), 1000);

    // Body 0: exactly at the origin, exactly at rest, an eighth of the
    // stellar count as mass.
    assert_eq!(f(galaxy.positions[0].x), 0.0);
    assert_eq!(f(galaxy.positions[0].y), 0.0);
    assert_eq!(f(galaxy.positions[0].z), 0.0);
    assert_eq!(f(galaxy.positions[0].w), 1.0);
    assert_eq!(f(galaxy.velocities[0].x), 0.0);
    assert_eq!(f(galaxy.velocities[0].y), 0.0);
    assert_eq!(f(galaxy.velocities[0].z), 0.0);
    assert_eq!(f(galaxy.mass[0]), 125.0);
}

#[test]
fn stars_have_unit_mass_and_padded_lanes() {
    let galaxy = generate_galaxy(
        MAX_RADIUS.to_bits(),
        MAX_PHI.to_bits(),
        200,
        up_z(),
        2e-5f32.to_bits(),
    );
    for i in 1..200 {
        assert_eq!(f(galaxy.mass[i]), 1.0, "mass of star {}", i);
        assert_eq!(f(galaxy.positions[i].w), 1.0, "homogeneous lane of star {}", i);
        assert_eq!(f(galaxy.velocities[i].w), 0.0, "velocity padding of star {}", i);
    }
}

#[test]
fn sampled_radii_and_angles_stay_in_bounds() {
    let galaxy = generate_galaxy(
        MAX_RADIUS.to_bits(),
        MAX_PHI.to_bits(),
        1000,
        up_z(),
        2e-5f32.to_bits(),
    );
    for i in 0..1000 {
        let p = [
            f(galaxy.positions[i].x) as f64,
            f(galaxy.positions[i].y) as f64,
            f(galaxy.positions[i].z) as f64,
        ];
        let radius = (p[0] * p[0] + p[1] * p[1] + p[2] * p[2]).sqrt();
        assert!(
            radius <= MAX_RADIUS as f64 * (1.0 + 1e-5),
            "radius {} of body {} above the bound",
            radius,
            i
        );
        // The out-of-plane angle against the up axis (here: z). The taper
        // multiplies the drawn angle by a factor in [0, 1], so the bound
        // still holds.
        if radius > 1e-6 {
            let sine = (p[2] / radius).abs().min(1.0);
            let angle = sine.asin();
            assert!(
                angle <= MAX_PHI as f64 + 1e-4,
                "disc angle {} of body {} above the bound",
                angle,
                i
            );
        }
    }
}

#[test]
fn galaxy_uploads_and_ticks() {
    let galaxy = generate_galaxy(
        50.0f32.to_bits(),
        0.25f32.to_bits(),
        64,
        up_z(),
        2e-5f32.to_bits(),
    );
    let mut compute: BodyData<Compute> = BodyData::with_length(64);
    assert_eq!(compute.map_to(&galaxy), Ok(()));
    assert_eq!(compute.positions, galaxy.positions);

    let mut bodies = galaxy;
    physics_tick((1.0f32 / 60.0).to_bits(), &mut bodies, 2e-5f32.to_bits());
    assert_eq!(bodies.positions.len(), 64);
    for i in 0..64 {
        assert!(f(bodies.positions[i].x).is_finite());
        assert!(f(bodies.velocities[i].x).is_finite());
    }
}

#[test]
fn flat_disc_when_max_phi_is_zero() {
    let galaxy = generate_galaxy(
        10.0f32.to_bits(),
        0.0f32.to_bits(),
        32,
        up_z(),
        2e-5f32.to_bits(),
    );
    for i in 0..32 {
        // With a zero opening angle every body lies in the disc plane.
        assert_eq!(f(galaxy.positions[i].z), 0.0, "body {} off the plane", i);
    }
}

#[test]
fn sampled_polar_coordinates_bounded() {
    for _ in 0..200 {
        let (radius, theta, phi) =
            gravity_sim::galaxy::sample_polar(MAX_RADIUS.to_bits(), MAX_PHI.to_bits());
        assert!((0.0..=MAX_RADIUS).contains(&f(radius)), "radius {}", f(radius));
        assert!((0.0..std::f32::consts::TAU).contains(&f(theta)), "azimuth {}", f(theta));
        assert!(f(phi).abs() <= MAX_PHI, "disc angle {}", f(phi));
    }
}

#[test]
fn star_speeds_follow_the_rotation_curve() {
    let g = 2e-5f32;
    let n = 500usize;
    let galaxy = generate_galaxy(MAX_RADIUS.to_bits(), MAX_PHI.to_bits(), n, up_z(), g.to_bits());
    let mut checked = 0usize;
    for i in 1..n {
        let p = [f(galaxy.positions[i].x) as f64, f(galaxy.positions[i].y) as f64, f(
            galaxy.positions[i].z,
        ) as f64];
        let v = [f(galaxy.velocities[i].x) as f64, f(galaxy.velocities[i].y) as f64, f(
            galaxy.velocities[i].z,
        ) as f64];
        let radius = (p[0] * p[0] + p[1] * p[1] + p[2] * p[2]).sqrt();
        if radius > 1e-3 {
            let speed = (v[0] * v[0] + v[1] * v[1] + v[2] * v[2]).sqrt();
            let expected = (g as f64 * n as f64 / radius).sqrt() * radius / MAX_RADIUS as f64;
            assert!(
                (speed - expected).abs() <= expected * 1e-3 + 1e-9,
                "speed {} expected {} at radius {}",
                speed,
                expected,
                radius
            );
            checked += 1;
        }
    }
    assert!(checked > 400, "too few stars checked: {}", checked);
}
