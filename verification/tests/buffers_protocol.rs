//! Tests of the device buffer pair and the staged upload protocol: the
//! length invariant, the completion barrier, and the readback identity.

use gravity_sim::buffers::BodyData;
use gravity_sim::buffers::BufferType;
use gravity_sim::buffers::Compute;
use gravity_sim::buffers::Mappable;
use gravity_sim::buffers::UploadError;
use gravity_sim::buffers::mapping_barrier_reached;
use gravity_sim::buffers::sub_buffer_size_bytes;
use gravity_sim::store::UnbufferedBodyData;
use gravity_sim::vectors::Vec4B;

fn v4(x: f32, y: f32, z: f32, w: f32) -> Vec4B {
    Vec4B { x: x.to_bits(), y: y.to_bits(), z: z.to_bits(), w: w.to_bits() }
}

fn triplet(n_pos: usize, n_vel: usize, n_mass: usize) -> UnbufferedBodyData {
    let positions = (0..n_pos).map(|i| v4(i as f32, 0.5, -2.0, 1.0)).collect();
    let velocities = (0..n_vel).map(|i| v4(0.0, i as f32 * 0.25, 0.125, 0.0)).collect();
    let mass = (0..n_mass).map(|i| (1.0f32 + i as f32).to_bits()).collect();
    UnbufferedBodyData { positions, velocities, mass }
}

#[test]
fn upload_mismatched_fields_fails_and_leaves_target() {
    let mut compute: BodyData<Compute> = BodyData::with_length(5);
    let data = triplet(5, 4, 5);
    let before_positions = compute.positions.clone();
    let before_velocities = compute.velocities.clone();
    let before_mass = compute.mass.clone();

    let outcome = compute.map_to(&data);
    assert_eq!(outcome, Err(UploadError::FieldLengthMismatch));
    assert_eq!(compute.positions, before_positions);
    assert_eq!(compute.velocities, before_velocities);
    assert_eq!(compute.mass, before_mass);
    assert_eq!(compute.len, 5);
}

#[test]
fn upload_wrong_target_length_fails_and_leaves_target() {
    let mut compute: BodyData<Compute> = BodyData::with_length(5);
    let data = triplet(4, 4, 4);
    let before_positions = compute.positions.clone();

    let outcome = compute.map_to(&data);
    assert_eq!(outcome, Err(UploadError::TargetLengthMismatch));
    assert_eq!(compute.positions, before_positions);
}

#[test]
fn upload_readback_is_bit_identical() {
    let mut compute: BodyData<Compute> = BodyData::with_length(5);
    let data = triplet(5, 5, 5);
    let outcome = compute.map_to(&data);
    assert_eq!(outcome, Ok(()));
    assert_eq!(compute.positions, data.positions);
    assert_eq!(compute.velocities, data.velocities);
    assert_eq!(compute.mass, data.mass);
}

#[test]
fn free_upload_behaves_like_map_to() {
    let mut compute: BodyData<Compute> = BodyData::with_length(3);
    let data = triplet(3, 3, 3);
    assert_eq!(gravity_sim::buffers::upload(&mut compute, &data), Ok(()));
    assert_eq!(compute.positions, data.positions);

    let bad = triplet(3, 2, 3);
    assert_eq!(
        gravity_sim::buffers::upload(&mut compute, &bad),
        Err(UploadError::FieldLengthMismatch)
    );
    // The failed upload left the previous contents in place.
    assert_eq!(compute.positions, data.positions);
}

#[test]
fn freshly_created_buffers_read_zero() {
    let compute: BodyData<Compute> = BodyData::with_length(3);
    assert_eq!(compute.len, 3);
    for i in 0..3 {
        assert_eq!(compute.positions[i], v4(0.0, 0.0, 0.0, 0.0));
        assert_eq!(compute.velocities[i], v4(0.0, 0.0, 0.0, 0.0));
        assert_eq!(compute.mass[i], 0);
    }
    let mappable: BodyData<Mappable> = BodyData::with_length(3);
    assert_eq!(mappable.buffer_type.mapped_buffer_count, 0);
    assert!(!mappable.buffer_type.positions_written);
}

#[test]
fn completion_counter_counts_each_write() {
    let mut mappable: BodyData<Mappable> = BodyData::with_length(2);
    let data = triplet(2, 2, 2);
    assert!(!mappable.mapping_complete());

    mappable.stage_positions(&data.positions);
    assert_eq!(mappable.buffer_type.mapped_buffer_count, 1);
    assert!(!mappable.mapping_complete());

    mappable.stage_velocities(&data.velocities);
    assert_eq!(mappable.buffer_type.mapped_buffer_count, 2);
    assert!(!mappable.mapping_complete());

    mappable.stage_mass(&data.mass);
    assert_eq!(mappable.buffer_type.mapped_buffer_count, 3);
    assert!(mappable.mapping_complete());
    assert_eq!(mappable.positions, data.positions);
    assert_eq!(mappable.velocities, data.velocities);
    assert_eq!(mappable.mass, data.mass);
}

#[test]
fn map_resets_counter_and_completes() {
    let mut mappable: BodyData<Mappable> = BodyData::with_length(2);
    let data = triplet(2, 2, 2);
    assert_eq!(mappable.map(&data), Ok(()));
    assert_eq!(mappable.buffer_type.mapped_buffer_count, 3);
    assert!(mappable.mapping_complete());

    // A second upload through the same staging state starts from a fresh
    // counter and lands at three again.
    let other = triplet(2, 2, 2);
    assert_eq!(mappable.map(&other), Ok(()));
    assert_eq!(mappable.buffer_type.mapped_buffer_count, 3);
}

#[test]
fn barrier_decision_matches_counter() {
    assert!(!mapping_barrier_reached(0));
    assert!(!mapping_barrier_reached(1));
    assert!(!mapping_barrier_reached(2));
    assert!(mapping_barrier_reached(3));
}

#[test]
fn usage_bits_match_wgpu() {
    let mappable_bits = (wgpu::BufferUsages::MAP_WRITE | wgpu::BufferUsages::COPY_SRC).bits();
    assert_eq!(<Mappable as BufferType>::get_usages(), mappable_bits);
    let compute_bits = (wgpu::BufferUsages::INDIRECT
        | wgpu::BufferUsages::VERTEX
        | wgpu::BufferUsages::STORAGE
        | wgpu::BufferUsages::COPY_DST)
        .bits();
    assert_eq!(<Compute as BufferType>::get_usages(), compute_bits);
}

#[test]
fn sub_buffer_sizes() {
    // A 4-wide record is 16 bytes, a scalar 4 bytes.
    assert_eq!(sub_buffer_size_bytes(4, 7), 112);
    assert_eq!(sub_buffer_size_bytes(1, 7), 28);
    assert_eq!(sub_buffer_size_bytes(4, 0), 0);
}

#[test]
fn dispatch_grid_covers_pairs() {
    let compute: BodyData<Compute> = BodyData::generate_unit_points();
    assert_eq!(compute.dispatch_grid(), (7, 7, 1));
}

#[test]
fn unit_points_exact_configuration() {
    let compute: BodyData<Compute> = BodyData::generate_unit_points();
    assert_eq!(compute.len, 7);
    let expected = [
        [1.0, 0.0, 0.0, 1.0],
        [0.0, 1.0, 0.0, 1.0],
        [-1.0, 0.0, 0.0, 1.0],
        [0.0, -1.0, 0.0, 1.0],
        [0.0, 0.0, 1.0, 1.0],
        [0.0, 0.0, -1.0, 1.0],
        [0.0, 0.0, 0.0, 1.0],
    ];
    for i in 0..7 {
        assert_eq!(compute.positions[i], v4(expected[i][0], expected[i][1], expected[i][2], expected[i][3]));
        assert_eq!(compute.velocities[i], v4(0.0, 0.0, 0.0, 0.0));
        assert_eq!(f32::from_bits(compute.mass[i]), 1.0);
    }
}
