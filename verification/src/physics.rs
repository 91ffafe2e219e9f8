//! The reference integrator: one explicit-Euler tick under mutual
//! Newtonian gravitation, computed entirely on the host.
//!
//! The spec functions below model the tick exactly, as a composition of
//! the canonical f32 primitives: for every ordered pair (i, j) with
//! distinct positions whose reciprocal separation passes the singularity
//! guard, body i's velocity accumulates `G * m_i * m_j * r^-3 * d / m_i
//! * dt` lane by lane, in ascending j order; afterwards every position
//! advances by its (new) velocity times the step, in a second pass, so
//! no body sees a partially updated position.
//!
//! The executable `physics_tick` is proved to produce this model lane by
//! lane up to NaN payloads (`canon4`): which branches are taken, whether
//! any lane is a NaN, and the bits of every non-NaN lane are functions
//! of the store, the step, and the constant alone; only the payload
//! inside a NaN lane is the platform's choice, which is all IEEE 754
//! leaves open. On NaN-free data the result is therefore bit-exact and
//! reproducible, which the seven-body regression test relies on.

use vstd::prelude::*;

use crate::scalar::SINGULARITY_THRESHOLD;
use crate::scalar::add_can;
use crate::scalar::canon_bits;
use crate::scalar::div_can;
use crate::scalar::f32_add;
use crate::scalar::f32_div;
use crate::scalar::f32_lt;
use crate::scalar::f32_mul;
use crate::scalar::f32_sub;
use crate::scalar::lemma_canon_idempotent;
use crate::scalar::lt_can;
use crate::scalar::mul_can;
use crate::scalar::sub_can;
use crate::store::UnbufferedBodyData;
use crate::vectors::Vec3B;
use crate::vectors::Vec4B;
use crate::vectors::canon4;
use crate::vectors::length_recip_can;
use crate::vectors::v4_eq_bits;
use crate::vectors::v4_float_eq;
use crate::vectors::vec3_length_recip;

verus! {

broadcast use lemma_canon_idempotent;

/// The displacement from body i to body j, lane by lane.
pub open spec fn pair_displacement(pi: Vec4B, pj: Vec4B) -> Vec3B {
    Vec3B { x: sub_can(pj.x, pi.x), y: sub_can(pj.y, pi.y), z: sub_can(pj.z, pi.z) }
}

/// The reciprocal of the distance between the two bodies.
pub open spec fn pair_recip(pi: Vec4B, pj: Vec4B) -> u32 {
    let d = pair_displacement(pi, pj);
    length_recip_can(d.x, d.y, d.z)
}

/// Whether the pair (i, j) contributes a force: the positions differ
/// under IEEE equality, and the reciprocal separation stays below the
/// singularity guard's threshold for this step size. Pairs at (or beyond)
/// the guard are suppressed rather than allowed to blow up the velocity.
/// Both decisions are NaN-payload-independent, so the model and the
/// executable always take the same branch.
pub open spec fn pair_applies(pi: Vec4B, pj: Vec4B, dt: u32) -> bool {
    !v4_eq_bits(pi, pj) && lt_can(pair_recip(pi, pj), div_can(SINGULARITY_THRESHOLD, dt))
}

/// The velocity increment body i receives from body j in one step:
/// `((G * m_i) * m_j) * r^-3` scales the displacement, the result is
/// divided by m_i (an acceleration) and multiplied by the step, each
/// lane in the order the integrator performs the operations.
pub open spec fn pair_velocity_delta(pi: Vec4B, pj: Vec4B, mi: u32, mj: u32, g: u32, dt: u32) -> Vec3B {
    let d = pair_displacement(pi, pj);
    let dlr = pair_recip(pi, pj);
    let cube = mul_can(mul_can(dlr, dlr), dlr);
    let scale = mul_can(mul_can(mul_can(g, mi), mj), cube);
    Vec3B {
        x: mul_can(div_can(mul_can(scale, d.x), mi), dt),
        y: mul_can(div_can(mul_can(scale, d.y), mi), dt),
        z: mul_can(div_can(mul_can(scale, d.z), mi), dt),
    }
}

/// Body i's velocity after it has accumulated the contributions of the
/// partners j in 0..j_end, in ascending order, starting from v0. The w
/// lane is never touched.
pub open spec fn accum_velocity(
    pos: Seq<Vec4B>,
    mass: Seq<u32>,
    i: int,
    v0: Vec4B,
    g: u32,
    dt: u32,
    j_end: int,
) -> Vec4B
    decreases j_end,
{
    if j_end <= 0 {
        v0
    } else {
        let v = accum_velocity(pos, mass, i, v0, g, dt, j_end - 1);
        if pair_applies(pos[i], pos[j_end - 1], dt) {
            let dv = pair_velocity_delta(pos[i], pos[j_end - 1], mass[i], mass[j_end - 1], g, dt);
            Vec4B { x: add_can(v.x, dv.x), y: add_can(v.y, dv.y), z: add_can(v.z, dv.z), w: v.w }
        } else {
            v
        }
    }
}

/// All velocities after the force pass: each body has accumulated the
/// contributions of every partner against the unchanged positions.
pub open spec fn ticked_velocities(
    pos: Seq<Vec4B>,
    vel: Seq<Vec4B>,
    mass: Seq<u32>,
    g: u32,
    dt: u32,
) -> Seq<Vec4B> {
    Seq::new(vel.len(), |i: int| accum_velocity(pos, mass, i, vel[i], g, dt, pos.len() as int))
}

/// One position advanced by its velocity times the step, lane by lane;
/// the w lane is never touched.
pub open spec fn advanced_position(p: Vec4B, v: Vec4B, dt: u32) -> Vec4B {
    Vec4B {
        x: add_can(p.x, mul_can(v.x, dt)),
        y: add_can(p.y, mul_can(v.y, dt)),
        z: add_can(p.z, mul_can(v.z, dt)),
        w: p.w,
    }
}

/// All positions after the integration pass, advanced against the
/// already-updated velocities.
pub open spec fn ticked_positions(pos: Seq<Vec4B>, vel: Seq<Vec4B>, dt: u32) -> Seq<Vec4B> {
    Seq::new(pos.len(), |i: int| advanced_position(pos[i], vel[i], dt))
}

/// Advances every body by one explicit-Euler step of length `delta` under
/// mutual Newtonian gravitation with constant `gravitation_constant`.
///
/// The new state is the spec model, lane by lane up to NaN payloads:
/// first every velocity accumulates the surviving pairwise contributions
/// against the old positions, then every position advances by its new
/// velocity. Every branch, every non-NaN lane, and the NaN-ness of every
/// lane are functions of the inputs alone; two ticks from equal states
/// agree on all of them, and bit for bit wherever no NaN arises.
pub fn physics_tick(delta: u32, bodies: &mut UnbufferedBodyData, gravitation_constant: u32)
    requires
        old(bodies).wf(),
    ensures
        final(bodies).wf(),
        final(bodies).mass@ == old(bodies).mass@,
        final(bodies).velocities@.len() == old(bodies).velocities@.len(),
        final(bodies).positions@.len() == old(bodies).positions@.len(),
        forall|k: int| 0 <= k < old(bodies).velocities@.len() ==> canon4(
            final(bodies).velocities@[k],
        ) == canon4(
            ticked_velocities(
                old(bodies).positions@,
                old(bodies).velocities@,
                old(bodies).mass@,
                gravitation_constant,
                delta,
            )[k],
        ),
        forall|k: int| 0 <= k < old(bodies).positions@.len() ==> canon4(
            final(bodies).positions@[k],
        ) == canon4(
            ticked_positions(
                old(bodies).positions@,
                ticked_velocities(
                    old(bodies).positions@,
                    old(bodies).velocities@,
                    old(bodies).mass@,
                    gravitation_constant,
                    delta,
                ),
                delta,
            )[k],
        ),
{
    let ghost pos0 = bodies.positions@;
    let ghost vel0 = bodies.velocities@;
    let ghost mass0 = bodies.mass@;
    let ghost vel_model = ticked_velocities(pos0, vel0, mass0, gravitation_constant, delta);
    let n = bodies.positions.len();
    let threshold = f32_div(SINGULARITY_THRESHOLD, delta);

    // Force pass: accumulate dv/dt into each velocity against the old
    // positions.
    let mut i: usize = 0;
    while i < n
        invariant
            n == pos0.len(),
            vel0.len() == n,
            mass0.len() == n,
            bodies.positions@ == pos0,
            bodies.mass@ == mass0,
            bodies.velocities@.len() == n,
            i <= n,
            vel_model == ticked_velocities(pos0, vel0, mass0, gravitation_constant, delta),
            canon_bits(threshold) == div_can(SINGULARITY_THRESHOLD, delta),
            forall|k: int| 0 <= k < i ==> canon4(bodies.velocities@[k]) == canon4(vel_model[k]),
            forall|k: int| i <= k < n ==> bodies.velocities@[k] == vel0[k],
        decreases n - i,
    {
        let mut v = bodies.velocities[i];
        let mi = bodies.mass[i];
        let mut j: usize = 0;
        while j < n
            invariant
                n == pos0.len(),
                vel0.len() == n,
                mass0.len() == n,
                bodies.positions@ == pos0,
                bodies.mass@ == mass0,
                i < n,
                j <= n,
                canon_bits(threshold) == div_can(SINGULARITY_THRESHOLD, delta),
                mi == mass0[i as int],
                canon4(v) == canon4(
                    accum_velocity(pos0, mass0, i as int, vel0[i as int], gravitation_constant, delta, j as int),
                ),
            decreases n - j,
        {
            let ghost m_prev = accum_velocity(
                pos0,
                mass0,
                i as int,
                vel0[i as int],
                gravitation_constant,
                delta,
                j as int,
            );
            let pi = bodies.positions[i];
            let pj = bodies.positions[j];
            if !v4_float_eq(&pi, &pj) {
                let dx = f32_sub(pj.x, pi.x);
                let dy = f32_sub(pj.y, pi.y);
                let dz = f32_sub(pj.z, pi.z);
                let dlr = vec3_length_recip(dx, dy, dz);
                proof {
                    assert(canon_bits(dlr) == pair_recip(pi, pj));
                }
                if f32_lt(dlr, threshold) {
                    let mj = bodies.mass[j];
                    let cube = f32_mul(f32_mul(dlr, dlr), dlr);
                    let scale = f32_mul(f32_mul(f32_mul(gravitation_constant, mi), mj), cube);
                    let ax = f32_div(f32_mul(scale, dx), mi);
                    let ay = f32_div(f32_mul(scale, dy), mi);
                    let az = f32_div(f32_mul(scale, dz), mi);
                    let dvx = f32_mul(ax, delta);
                    let dvy = f32_mul(ay, delta);
                    let dvz = f32_mul(az, delta);
                    proof {
                        let dv = pair_velocity_delta(
                            pi,
                            pj,
                            mi,
                            mass0[j as int],
                            gravitation_constant,
                            delta,
                        );
                        assert(canon_bits(dvx) == dv.x);
                        assert(canon_bits(dvy) == dv.y);
                        assert(canon_bits(dvz) == dv.z);
                    }
                    v = Vec4B {
                        x: f32_add(v.x, dvx),
                        y: f32_add(v.y, dvy),
                        z: f32_add(v.z, dvz),
                        w: v.w,
                    };
                    proof {
                        assert(pair_applies(pi, pj, delta));
                        assert(canon4(v) == canon4(
                            accum_velocity(
                                pos0,
                                mass0,
                                i as int,
                                vel0[i as int],
                                gravitation_constant,
                                delta,
                                j as int + 1,
                            ),
                        ));
                    }
                } else {
                    proof {
                        assert(!pair_applies(pi, pj, delta));
                    }
                }
            } else {
                proof {
                    assert(!pair_applies(pi, pj, delta));
                }
            }
            j = j + 1;
        }
        bodies.velocities.set(i, v);
        i = i + 1;
    }

    // Integration pass: advance the positions against the new velocities.
    let mut i: usize = 0;
    while i < n
        invariant
            n == pos0.len(),
            vel_model.len() == n,
            bodies.mass@ == mass0,
            bodies.velocities@.len() == n,
            forall|k: int| 0 <= k < n ==> canon4(bodies.velocities@[k]) == canon4(vel_model[k]),
            bodies.positions@.len() == n,
            i <= n,
            forall|k: int| 0 <= k < i ==> canon4(bodies.positions@[k]) == canon4(
                advanced_position(pos0[k], vel_model[k], delta),
            ),
            forall|k: int| i <= k < n ==> bodies.positions@[k] == pos0[k],
        decreases n - i,
    {
        let p = bodies.positions[i];
        let vi = bodies.velocities[i];
        let np = Vec4B {
            x: f32_add(p.x, f32_mul(vi.x, delta)),
            y: f32_add(p.y, f32_mul(vi.y, delta)),
            z: f32_add(p.z, f32_mul(vi.z, delta)),
            w: p.w,
        };
        proof {
            assert(canon4(np) == canon4(advanced_position(pos0[i as int], vel_model[i as int], delta)));
        }
        bodies.positions.set(i, np);
        i = i + 1;
    }
}

/// Law (singularity guard): a pair of bodies at positions equal under
/// IEEE comparison contributes nothing, whatever the masses, the step, or
/// the constant — its interaction is suppressed outright rather than
/// evaluated at vanishing separation.
pub proof fn lemma_identical_positions_pair_suppressed(pi: Vec4B, pj: Vec4B, dt: u32)
    requires
        v4_eq_bits(pi, pj),
    ensures
        !pair_applies(pi, pj, dt),
{
}

/// Law (singularity guard, whole tick): in a two-body system whose bodies
/// sit at IEEE-equal positions, a tick leaves both velocities unchanged —
/// no NaN or infinity can enter through that pair.
pub proof fn lemma_identical_positions_tick_keeps_velocities(
    pos: Seq<Vec4B>,
    vel: Seq<Vec4B>,
    mass: Seq<u32>,
    g: u32,
    dt: u32,
)
    requires
        pos.len() == 2,
        vel.len() == 2,
        mass.len() == 2,
        v4_eq_bits(pos[0], pos[1]),
    ensures
        ticked_velocities(pos, vel, mass, g, dt) == vel,
{
    assert forall|i: int| 0 <= i < 2 implies accum_velocity(pos, mass, i, vel[i], g, dt, 2)
        == vel[i] by {
        assert(v4_eq_bits(pos[i], pos[0]));
        assert(v4_eq_bits(pos[i], pos[1]));
        assert(accum_velocity(pos, mass, i, vel[i], g, dt, 0) == vel[i]);
        assert(accum_velocity(pos, mass, i, vel[i], g, dt, 1) == vel[i]);
        assert(accum_velocity(pos, mass, i, vel[i], g, dt, 2) == vel[i]);
    }
    assert(ticked_velocities(pos, vel, mass, g, dt) =~= vel);
}

} // verus!
