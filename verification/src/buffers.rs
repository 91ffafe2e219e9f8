//! The device buffer pair and the staged upload protocol.
//!
//! Two buffer roles share one logical shape (positions, velocities,
//! masses, length N) but different capabilities, distinguished at the
//! type level: a `Mappable` buffer is host-writable and transient, a
//! `Compute` buffer is device-resident and long-lived. Host data reaches
//! a `Compute` buffer only by the two-stage protocol: three independent
//! asynchronous writes into a fresh `Mappable` buffer, a completion
//! barrier that waits for a shared counter to reach three, then three
//! buffer-to-buffer copies.
//!
//! This module holds the verified model of that protocol: the lengths
//! and contents of the sub-buffers, the completion counter with its
//! invariant (it always equals the number of writes that have landed),
//! and the decisions the unverified device loop takes (when an upload is
//! refused, when the barrier is passed, how large the copies are).

use vstd::prelude::*;

use crate::scalar::F32_NEG_ONE;
use crate::scalar::F32_ONE;
use crate::scalar::F32_ZERO;
use crate::store::UnbufferedBodyData;
use crate::vectors::Vec4B;

verus! {

/// wgpu's MAP_WRITE buffer-usage bit.
pub const MAP_WRITE_USAGE: u32 = 0x2;

/// wgpu's COPY_SRC buffer-usage bit.
pub const COPY_SRC_USAGE: u32 = 0x4;

/// wgpu's COPY_DST buffer-usage bit.
pub const COPY_DST_USAGE: u32 = 0x8;

/// wgpu's VERTEX buffer-usage bit.
pub const VERTEX_USAGE: u32 = 0x20;

/// wgpu's STORAGE buffer-usage bit.
pub const STORAGE_USAGE: u32 = 0x80;

/// wgpu's INDIRECT buffer-usage bit.
pub const INDIRECT_USAGE: u32 = 0x100;

/// Why an upload was refused. The triplet's three vectors must agree with
/// each other and with the target's declared length; a mismatch fails the
/// upload and leaves the target untouched — the protocol never truncates
/// or pads.
#[derive(Clone, Copy, Debug, PartialEq, Eq, Structural)]
pub enum UploadError {
    /// The triplet's vectors disagree among themselves.
    FieldLengthMismatch,
    /// The triplet's common length disagrees with the target buffer's
    /// declared length.
    TargetLengthMismatch,
}

/// A buffer role: the usage capabilities its buffers are created with,
/// and the role-specific state a fresh buffer starts from.
pub trait BufferType: Sized {
    /// The usage bits of this role's buffers.
    spec fn spec_usages() -> u32;

    /// The state a fresh buffer of this role starts from.
    spec fn spec_init() -> Self;

    /// Returns the usage bits of this role's buffers.
    fn get_usages() -> (r: u32)
        ensures
            r == Self::spec_usages(),
    ;

    /// Returns the fresh-buffer state of this role.
    fn new() -> (r: Self)
        ensures
            r == Self::spec_init(),
    ;
}

/// The host-writable, transient staging role. It owns the upload's
/// completion state: one flag per sub-buffer write and the shared
/// counter the barrier polls.
#[derive(Clone, Copy, Debug, PartialEq, Eq, Structural)]
pub struct Mappable {
    /// How many of the three asynchronous sub-buffer writes have landed.
    pub mapped_buffer_count: u32,
    /// The positions write has landed.
    pub positions_written: bool,
    /// The velocities write has landed.
    pub velocities_written: bool,
    /// The masses write has landed.
    pub mass_written: bool,
}

/// The device-resident, long-lived role: kernel input/output and vertex
/// source, never host-accessible.
#[derive(Clone, Copy, Debug, PartialEq, Eq, Structural)]
pub struct Compute;

/// How many completion flags are set.
pub open spec fn written_count(m: Mappable) -> int {
    (if m.positions_written { 1int } else { 0int })
    + (if m.velocities_written { 1int } else { 0int })
    + (if m.mass_written { 1int } else { 0int })
}

impl Mappable {
    /// The counter invariant: the shared counter always equals the number
    /// of sub-buffer writes that have landed.
    pub open spec fn wf(self) -> bool {
        self.mapped_buffer_count == written_count(self)
    }
}

impl BufferType for Mappable {
    open spec fn spec_usages() -> u32 {
        MAP_WRITE_USAGE | COPY_SRC_USAGE
    }

    open spec fn spec_init() -> Self {
        Mappable {
            mapped_buffer_count: 0,
            positions_written: false,
            velocities_written: false,
            mass_written: false,
        }
    }

    fn get_usages() -> (r: u32) {
        MAP_WRITE_USAGE | COPY_SRC_USAGE
    }

    fn new() -> (r: Self) {
        Mappable {
            mapped_buffer_count: 0,
            positions_written: false,
            velocities_written: false,
            mass_written: false,
        }
    }
}

impl BufferType for Compute {
    open spec fn spec_usages() -> u32 {
        INDIRECT_USAGE | VERTEX_USAGE | STORAGE_USAGE | COPY_DST_USAGE
    }

    open spec fn spec_init() -> Self {
        Compute
    }

    fn get_usages() -> (r: u32) {
        INDIRECT_USAGE | VERTEX_USAGE | STORAGE_USAGE | COPY_DST_USAGE
    }

    fn new() -> (r: Self) {
        Compute
    }
}

/// Law (completion barrier): under the counter invariant, the counter
/// reads three exactly when all three sub-buffer writes have landed, so
/// polling until the counter reaches three waits for every write.
pub proof fn lemma_barrier_counts_all_writes(m: Mappable)
    requires
        m.wf(),
    ensures
        (m.mapped_buffer_count == 3) <==> (m.positions_written && m.velocities_written
            && m.mass_written),
{
}

/// The decision of the polling wait: with fewer than three completed
/// sub-buffer writes, the device's work queue must be driven further
/// before the staged contents may be copied onward.
pub fn mapping_barrier_reached(completed: usize) -> (r: bool)
    ensures
        r == (completed >= 3),
{
    completed >= 3
}

/// One logical body-data buffer of role `B`: the contents of its three
/// sub-buffers and its declared length.
#[derive(Debug)]
pub struct BodyData<B: BufferType> {
    pub positions: Vec<Vec4B>,
    pub velocities: Vec<Vec4B>,
    pub mass: Vec<u32>,
    pub len: usize,
    pub buffer_type: B,
}

/// A 4-wide record of zero bits.
pub open spec fn zero4() -> Vec4B {
    Vec4B { x: F32_ZERO, y: F32_ZERO, z: F32_ZERO, w: F32_ZERO }
}

/// The positions of the fixed seven-body test configuration: the six
/// unit octahedron vertices and the origin, each with a unit
/// homogeneous lane.
pub open spec fn unit_points() -> Seq<Vec4B> {
    seq![
        Vec4B { x: F32_ONE, y: F32_ZERO, z: F32_ZERO, w: F32_ONE },
        Vec4B { x: F32_ZERO, y: F32_ONE, z: F32_ZERO, w: F32_ONE },
        Vec4B { x: F32_NEG_ONE, y: F32_ZERO, z: F32_ZERO, w: F32_ONE },
        Vec4B { x: F32_ZERO, y: F32_NEG_ONE, z: F32_ZERO, w: F32_ONE },
        Vec4B { x: F32_ZERO, y: F32_ZERO, z: F32_ONE, w: F32_ONE },
        Vec4B { x: F32_ZERO, y: F32_ZERO, z: F32_NEG_ONE, w: F32_ONE },
        Vec4B { x: F32_ZERO, y: F32_ZERO, z: F32_ZERO, w: F32_ONE },
    ]
}

/// Copies a vector of plain records element by element.
fn copy_vec<T: Copy>(v: &Vec<T>) -> (r: Vec<T>)
    ensures
        r@ == v@,
{
    let mut r: Vec<T> = Vec::new();
    let mut i: usize = 0;
    while i < v.len()
        invariant
            i <= v@.len(),
            r@.len() == i,
            forall|k: int| 0 <= k < i ==> r@[k] == v@[k],
        decreases v@.len() - i,
    {
        r.push(v[i]);
        i = i + 1;
    }
    proof {
        assert(r@ =~= v@);
    }
    r
}

impl<B: BufferType> BodyData<B> {
    /// The three sub-buffers hold exactly the declared number of records.
    pub open spec fn wf(self) -> bool {
        self.positions@.len() == self.len
        && self.velocities@.len() == self.len
        && self.mass@.len() == self.len
    }

    /// Allocates a buffer of the given length in this role's fresh state.
    /// Like a newly created device buffer, its contents read as zeroes.
    pub fn with_length(len: usize) -> (r: BodyData<B>)
        ensures
            r.wf(),
            r.len == len,
            r.buffer_type == B::spec_init(),
            forall|k: int| 0 <= k < len ==> r.positions@[k] == zero4(),
            forall|k: int| 0 <= k < len ==> r.velocities@[k] == zero4(),
            forall|k: int| 0 <= k < len ==> r.mass@[k] == 0u32,
    {
        let mut positions: Vec<Vec4B> = Vec::new();
        let mut velocities: Vec<Vec4B> = Vec::new();
        let mut mass: Vec<u32> = Vec::new();
        let mut i: usize = 0;
        while i < len
            invariant
                i <= len,
                positions@.len() == i,
                velocities@.len() == i,
                mass@.len() == i,
                forall|k: int| 0 <= k < i ==> positions@[k] == zero4(),
                forall|k: int| 0 <= k < i ==> velocities@[k] == zero4(),
                forall|k: int| 0 <= k < i ==> mass@[k] == 0u32,
            decreases len - i,
        {
            positions.push(Vec4B { x: F32_ZERO, y: F32_ZERO, z: F32_ZERO, w: F32_ZERO });
            velocities.push(Vec4B { x: F32_ZERO, y: F32_ZERO, z: F32_ZERO, w: F32_ZERO });
            mass.push(0);
            i = i + 1;
        }
        BodyData { positions, velocities, mass, len, buffer_type: B::new() }
    }
}

impl BodyData<Mappable> {
    /// Completes the positions sub-buffer's asynchronous write: lands the
    /// host slice in the staging contents and advances the shared
    /// completion counter by one.
    pub fn stage_positions(&mut self, src: &Vec<Vec4B>)
        requires
            old(self).buffer_type.wf(),
            !old(self).buffer_type.positions_written,
            src@.len() == old(self).len,
        ensures
            final(self).buffer_type.wf(),
            final(self).positions@ == src@,
            final(self).velocities@ == old(self).velocities@,
            final(self).mass@ == old(self).mass@,
            final(self).len == old(self).len,
            final(self).buffer_type.positions_written,
            final(self).buffer_type.velocities_written == old(self).buffer_type.velocities_written,
            final(self).buffer_type.mass_written == old(self).buffer_type.mass_written,
            final(self).buffer_type.mapped_buffer_count
                == old(self).buffer_type.mapped_buffer_count + 1,
    {
        self.positions = copy_vec(src);
        let count = self.buffer_type.mapped_buffer_count;
        self.buffer_type.mapped_buffer_count = count + 1;
        self.buffer_type.positions_written = true;
    }

    /// Completes the velocities sub-buffer's asynchronous write.
    pub fn stage_velocities(&mut self, src: &Vec<Vec4B>)
        requires
            old(self).buffer_type.wf(),
            !old(self).buffer_type.velocities_written,
            src@.len() == old(self).len,
        ensures
            final(self).buffer_type.wf(),
            final(self).velocities@ == src@,
            final(self).positions@ == old(self).positions@,
            final(self).mass@ == old(self).mass@,
            final(self).len == old(self).len,
            final(self).buffer_type.velocities_written,
            final(self).buffer_type.positions_written == old(self).buffer_type.positions_written,
            final(self).buffer_type.mass_written == old(self).buffer_type.mass_written,
            final(self).buffer_type.mapped_buffer_count
                == old(self).buffer_type.mapped_buffer_count + 1,
    {
        self.velocities = copy_vec(src);
        let count = self.buffer_type.mapped_buffer_count;
        self.buffer_type.mapped_buffer_count = count + 1;
        self.buffer_type.velocities_written = true;
    }

    /// Completes the masses sub-buffer's asynchronous write.
    pub fn stage_mass(&mut self, src: &Vec<u32>)
        requires
            old(self).buffer_type.wf(),
            !old(self).buffer_type.mass_written,
            src@.len() == old(self).len,
        ensures
            final(self).buffer_type.wf(),
            final(self).mass@ == src@,
            final(self).positions@ == old(self).positions@,
            final(self).velocities@ == old(self).velocities@,
            final(self).len == old(self).len,
            final(self).buffer_type.mass_written,
            final(self).buffer_type.positions_written == old(self).buffer_type.positions_written,
            final(self).buffer_type.velocities_written == old(self).buffer_type.velocities_written,
            final(self).buffer_type.mapped_buffer_count
                == old(self).buffer_type.mapped_buffer_count + 1,
    {
        self.mass = copy_vec(src);
        let count = self.buffer_type.mapped_buffer_count;
        self.buffer_type.mapped_buffer_count = count + 1;
        self.buffer_type.mass_written = true;
    }

    /// Whether the upload barrier has been reached: the completion counter
    /// has seen all three sub-buffer writes land.
    pub fn mapping_complete(&self) -> (r: bool)
        ensures
            r == (self.buffer_type.mapped_buffer_count == 3),
    {
        self.buffer_type.mapped_buffer_count == 3
    }

    /// Stages a host triplet into this mappable buffer: validates the
    /// lengths, resets the completion counter for this upload, then lands
    /// the three sub-buffer writes.
    ///
    /// On success the staged contents equal the source exactly and the
    /// counter reads three. On a length mismatch the named error comes
    /// back and the buffer is left untouched.
    pub fn map(&mut self, data: &UnbufferedBodyData) -> (r: Result<(), UploadError>)
        ensures
            final(self).len == old(self).len,
            match r {
                Ok(()) => {
                    &&& data.wf()
                    &&& data.mass@.len() == old(self).len
                    &&& final(self).wf()
                    &&& final(self).positions@ == data.positions@
                    &&& final(self).velocities@ == data.velocities@
                    &&& final(self).mass@ == data.mass@
                    &&& final(self).buffer_type.wf()
                    &&& final(self).buffer_type.mapped_buffer_count == 3
                },
                Err(UploadError::FieldLengthMismatch) => {
                    &&& !(data.positions@.len() == data.velocities@.len()
                        && data.velocities@.len() == data.mass@.len())
                    &&& *final(self) == *old(self)
                },
                Err(UploadError::TargetLengthMismatch) => {
                    &&& data.wf()
                    &&& data.mass@.len() != old(self).len
                    &&& *final(self) == *old(self)
                },
            },
    {
        if !(data.positions.len() == data.velocities.len()
            && data.velocities.len() == data.mass.len()) {
            return Err(UploadError::FieldLengthMismatch);
        }
        if data.mass.len() != self.len {
            return Err(UploadError::TargetLengthMismatch);
        }

        // A fresh barrier for this upload: the counter returns to zero
        // before the three write requests are issued.
        self.buffer_type = Mappable {
            mapped_buffer_count: 0,
            positions_written: false,
            velocities_written: false,
            mass_written: false,
        };
        self.stage_positions(&data.positions);
        self.stage_velocities(&data.velocities);
        self.stage_mass(&data.mass);
        Ok(())
    }
}

impl BodyData<Compute> {
    /// Copies a completed mappable buffer's contents into this compute
    /// buffer, sub-buffer by sub-buffer. The precondition is the
    /// completion barrier: the copy may only be encoded after all three
    /// asynchronous writes have landed.
    pub fn copy_from_mappable(&mut self, mappable: &BodyData<Mappable>)
        requires
            mappable.wf(),
            mappable.buffer_type.wf(),
            mappable.buffer_type.mapped_buffer_count == 3,
            old(self).len == mappable.len,
        ensures
            final(self).wf(),
            final(self).len == old(self).len,
            final(self).positions@ == mappable.positions@,
            final(self).velocities@ == mappable.velocities@,
            final(self).mass@ == mappable.mass@,
            final(self).buffer_type == old(self).buffer_type,
    {
        self.positions = copy_vec(&mappable.positions);
        self.velocities = copy_vec(&mappable.velocities);
        self.mass = copy_vec(&mappable.mass);
    }

    /// Uploads a host triplet into this compute buffer; the method form
    /// of the free function `upload`.
    pub fn map_to(&mut self, data: &UnbufferedBodyData) -> (r: Result<(), UploadError>)
        requires
            old(self).wf(),
        ensures
            final(self).len == old(self).len,
            final(self).buffer_type == old(self).buffer_type,
            match r {
                Ok(()) => {
                    &&& data.wf()
                    &&& data.mass@.len() == old(self).len
                    &&& final(self).wf()
                    &&& final(self).positions@ == data.positions@
                    &&& final(self).velocities@ == data.velocities@
                    &&& final(self).mass@ == data.mass@
                },
                Err(UploadError::FieldLengthMismatch) => {
                    &&& !(data.positions@.len() == data.velocities@.len()
                        && data.velocities@.len() == data.mass@.len())
                    &&& *final(self) == *old(self)
                },
                Err(UploadError::TargetLengthMismatch) => {
                    &&& data.wf()
                    &&& data.mass@.len() != old(self).len
                    &&& *final(self) == *old(self)
                },
            },
    {
        upload(self, data)
    }

    /// Builds the fixed seven-body test configuration in a fresh compute
    /// buffer, through the same staged upload every other configuration
    /// takes: unit masses at the six unit octahedron vertices and at the
    /// origin, all at rest — the deterministic alternative to the random
    /// galaxy.
    pub fn generate_unit_points() -> (r: BodyData<Compute>)
        ensures
            r.wf(),
            r.len == 7,
            r.positions@ == unit_points(),
            r.velocities@.len() == 7,
            forall|k: int| 0 <= k < 7 ==> r.velocities@[k] == zero4(),
            r.mass@.len() == 7,
            forall|k: int| 0 <= k < 7 ==> r.mass@[k] == F32_ONE,
    {
        let mut positions: Vec<Vec4B> = Vec::new();
        positions.push(Vec4B { x: F32_ONE, y: F32_ZERO, z: F32_ZERO, w: F32_ONE });
        positions.push(Vec4B { x: F32_ZERO, y: F32_ONE, z: F32_ZERO, w: F32_ONE });
        positions.push(Vec4B { x: F32_NEG_ONE, y: F32_ZERO, z: F32_ZERO, w: F32_ONE });
        positions.push(Vec4B { x: F32_ZERO, y: F32_NEG_ONE, z: F32_ZERO, w: F32_ONE });
        positions.push(Vec4B { x: F32_ZERO, y: F32_ZERO, z: F32_ONE, w: F32_ONE });
        positions.push(Vec4B { x: F32_ZERO, y: F32_ZERO, z: F32_NEG_ONE, w: F32_ONE });
        positions.push(Vec4B { x: F32_ZERO, y: F32_ZERO, z: F32_ZERO, w: F32_ONE });
        let mut velocities: Vec<Vec4B> = Vec::new();
        let mut mass: Vec<u32> = Vec::new();
        let mut i: usize = 0;
        while i < 7
            invariant
                i <= 7,
                velocities@.len() == i,
                mass@.len() == i,
                forall|k: int| 0 <= k < i ==> velocities@[k] == zero4(),
                forall|k: int| 0 <= k < i ==> mass@[k] == F32_ONE,
            decreases 7 - i,
        {
            velocities.push(Vec4B { x: F32_ZERO, y: F32_ZERO, z: F32_ZERO, w: F32_ZERO });
            mass.push(F32_ONE);
            i = i + 1;
        }
        let data = UnbufferedBodyData { positions, velocities, mass };
        let mut compute = BodyData::<Compute>::with_length(7);
        let outcome = compute.map_to(&data);
        proof {
            assert(data.positions@ =~= unit_points());
        }
        match outcome {
            Ok(()) => compute,
            Err(_) => {
                // The triplet was built with three vectors of length
                // seven, the buffer's own length, so no mismatch exists.
                proof {
                    assert(false);
                }
                compute
            },
        }
    }

    /// The workgroup grid of one compute tick: the kernel covers the
    /// N-by-N grid of ordered body pairs, one layer deep.
    pub fn dispatch_grid(&self) -> (r: (u32, u32, u32))
        requires
            self.len <= u32::MAX,
        ensures
            r.0 == self.len,
            r.1 == self.len,
            r.2 == 1,
    {
        (self.len as u32, self.len as u32, 1)
    }
}

/// Uploads a host triplet into a compute buffer through a fresh
/// transient mappable buffer: stage the three asynchronous writes, pass
/// the completion barrier, then copy the three sub-buffers onward. The
/// mappable buffer is discarded afterwards, never reused.
///
/// On success the compute buffer's contents equal the source triplet
/// exactly. On a length mismatch — the triplet's vectors disagreeing
/// among themselves, or with the target's declared length — the named
/// error comes back and the target is left untouched.
pub fn upload(compute: &mut BodyData<Compute>, data: &UnbufferedBodyData) -> (r: Result<
    (),
    UploadError,
>)
    requires
        old(compute).wf(),
    ensures
        final(compute).len == old(compute).len,
        final(compute).buffer_type == old(compute).buffer_type,
        match r {
            Ok(()) => {
                &&& data.wf()
                &&& data.mass@.len() == old(compute).len
                &&& final(compute).wf()
                &&& final(compute).positions@ == data.positions@
                &&& final(compute).velocities@ == data.velocities@
                &&& final(compute).mass@ == data.mass@
            },
            Err(UploadError::FieldLengthMismatch) => {
                &&& !(data.positions@.len() == data.velocities@.len()
                    && data.velocities@.len() == data.mass@.len())
                &&& *final(compute) == *old(compute)
            },
            Err(UploadError::TargetLengthMismatch) => {
                &&& data.wf()
                &&& data.mass@.len() != old(compute).len
                &&& *final(compute) == *old(compute)
            },
        },
{
    let mut mapping_buffer = BodyData::<Mappable>::with_length(compute.len);
    match mapping_buffer.map(data) {
        Ok(()) => {
            compute.copy_from_mappable(&mapping_buffer);
            Ok(())
        },
        Err(e) => Err(e),
    }
}

/// The byte length of one sub-buffer: `len` records of `unit_width`
/// scalars, four bytes per scalar. This sizes both the buffer
/// descriptors and the buffer-to-buffer copy commands.
pub fn sub_buffer_size_bytes(unit_width: usize, len: usize) -> (r: u64)
    requires
        unit_width <= 8,
        len <= u32::MAX,
    ensures
        r == 4 * unit_width * len,
{
    proof {
        assert(4 * unit_width * len <= 32 * 0xFFFF_FFFFu64) by (nonlinear_arith)
            requires
                unit_width <= 8,
                len <= u32::MAX,
        ;
    }
    4u64 * (unit_width as u64) * (len as u64)
}

} // verus!
