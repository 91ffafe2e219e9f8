//! The host-resident body store.
//!
//! An ordered sequence of N bodies, held as three parallel vectors:
//! 4-wide positions, 4-wide velocities, and scalar masses. The store is
//! well formed exactly when the three vectors have one common length; any
//! divergence is a logic error, so every operation of the library
//! preserves this invariant.

use vstd::prelude::*;

use crate::vectors::Vec4B;

verus! {

/// The host-side triplet of body attributes, not yet bound to any device
/// buffer. Scalars are f32 bit patterns.
#[derive(Debug)]
pub struct UnbufferedBodyData {
    pub positions: Vec<Vec4B>,
    pub velocities: Vec<Vec4B>,
    pub mass: Vec<u32>,
}

impl UnbufferedBodyData {
    /// The three vectors hold one body count.
    pub open spec fn wf(self) -> bool {
        self.positions@.len() == self.velocities@.len()
        && self.velocities@.len() == self.mass@.len()
    }

    /// The number of bodies in the store.
    pub fn len(&self) -> (r: usize)
        ensures
            r == self.positions@.len(),
    {
        self.positions.len()
    }
}

impl Default for UnbufferedBodyData {
    /// The empty store.
    fn default() -> (r: Self)
        ensures
            r.wf(),
            r.positions@.len() == 0,
    {
        UnbufferedBodyData { positions: Vec::new(), velocities: Vec::new(), mass: Vec::new() }
    }
}

} // verus!
