//! Verified core of an interactive N-body gravity simulation.
//!
//! The library models every `f32` scalar by its IEEE 754 bit pattern (a
//! `u32`), so that the verifier can reason about the structure of the
//! computation — which pairs interact, which guard suppresses a
//! contribution, which buffer holds which bytes — while the floating-point
//! primitives themselves are supplied by trusted wrappers around std and
//! glam.
//!
//! Modules:
//! - `scalar`: the bit-pattern scalar model and the trusted float primitives;
//! - `vectors`: 3- and 4-wide scalar records and their operations;
//! - `store`: the host-resident body store (positions, velocities, masses);
//! - `physics`: the reference integrator advancing a store by one tick;
//! - `buffers`: the mappable/compute buffer pair and the staged upload
//!   protocol with its completion barrier;
//! - `galaxy`: the disc-shaped initial-condition generator.

pub mod buffers;
pub mod galaxy;
pub mod physics;
pub mod scalar;
pub mod store;
pub mod vectors;
