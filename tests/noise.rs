use feather::noise::{DEFAULT_AMPLITUDE_BITS, DEFAULT_FREQUENCY_BITS};
use feather::{index, NoiseError, SampleRequest, SquidComponent, Wrapped3DPerlinNoise};

#[test]
fn default_settings() {
    let noise = Wrapped3DPerlinNoise::new(7);
    assert_eq!(noise.seed(), 7);
    assert_eq!(noise.frequency_bits(), 0.02f32.to_bits());
    assert_eq!(noise.amplitude_bits(), 400.0f32.to_bits());
    assert_eq!(DEFAULT_FREQUENCY_BITS, 0.02f32.to_bits());
    assert_eq!(DEFAULT_AMPLITUDE_BITS, 400.0f32.to_bits());
    assert_eq!(noise.size_horizontal(), 16);
    assert_eq!(noise.size_vertical(), 256);
    assert_eq!(noise.scale_horizontal(), 4);
    assert_eq!(noise.scale_vertical(), 8);
    assert_eq!(noise.offset_x(), 0);
    assert_eq!(noise.offset_z(), 0);
}

#[test]
fn builders_set_their_fields() {
    let noise = Wrapped3DPerlinNoise::new(0)
        .with_frequency(0.5f32.to_bits())
        .with_amplitude(2.0f32.to_bits())
        .with_size(32, 64)
        .with_offset(-3, 9);
    assert_eq!(f32::from_bits(noise.frequency_bits()), 0.5);
    assert_eq!(f32::from_bits(noise.amplitude_bits()), 2.0);
    assert_eq!(noise.size_horizontal(), 32);
    assert_eq!(noise.size_vertical(), 64);
    assert_eq!(noise.offset_x(), -3);
    assert_eq!(noise.offset_z(), 9);
}

#[test]
fn with_scale_sets_both_scales_and_no_size() {
    let noise = Wrapped3DPerlinNoise::new(0).with_scale(2, 16);
    assert_eq!(noise.scale_horizontal(), 2);
    assert_eq!(noise.scale_vertical(), 16);
    assert_eq!(noise.size_horizontal(), 16);
    assert_eq!(noise.size_vertical(), 256);
}

#[test]
fn chunk_request_and_length() {
    let noise = Wrapped3DPerlinNoise::new(0)
        .with_frequency(0.02f32.to_bits())
        .with_amplitude(400.0f32.to_bits())
        .with_size(16, 256)
        .with_scale(4, 8)
        .with_offset(10, 16);
    let request = noise.sample_request().unwrap();
    assert_eq!(
        request,
        SampleRequest {
            origin_x: 40,
            origin_y: 0,
            origin_z: 64,
            count_x: 5,
            count_y: 33,
            count_z: 5,
        }
    );
    assert_eq!(noise.field_len(), 16 * 16 * 256);
    assert_eq!(noise.field_len(), 65536);
    assert_eq!(noise.lattice_len(), 5 * 5 * 33);
}

#[test]
fn negative_offsets() {
    let noise = Wrapped3DPerlinNoise::new(0).with_offset(-2, -1);
    let request = noise.sample_request().unwrap();
    assert_eq!(request.origin_x, -8);
    assert_eq!(request.origin_z, -4);
}

#[test]
fn scale_not_dividing_size_is_rejected() {
    let noise = Wrapped3DPerlinNoise::new(0).with_size(16, 256).with_scale(5, 8);
    assert_eq!(noise.sample_request(), Err(NoiseError::InvalidScale));
    let noise = Wrapped3DPerlinNoise::new(0).with_size(16, 256).with_scale(4, 7);
    assert_eq!(noise.sample_request(), Err(NoiseError::InvalidScale));
}

#[test]
fn zero_size_or_scale_is_rejected() {
    let noise = Wrapped3DPerlinNoise::new(0).with_scale(0, 8);
    assert_eq!(noise.sample_request(), Err(NoiseError::InvalidScale));
    let noise = Wrapped3DPerlinNoise::new(0).with_scale(4, 0);
    assert_eq!(noise.sample_request(), Err(NoiseError::InvalidScale));
    let noise = Wrapped3DPerlinNoise::new(0).with_size(0, 256);
    assert_eq!(noise.sample_request(), Err(NoiseError::InvalidScale));
    let noise = Wrapped3DPerlinNoise::new(0).with_size(16, 0);
    assert_eq!(noise.sample_request(), Err(NoiseError::InvalidScale));
}

#[test]
fn oversized_field_is_rejected() {
    let noise = Wrapped3DPerlinNoise::new(0)
        .with_size(u32::MAX, u32::MAX)
        .with_scale(1, 1);
    assert_eq!(noise.sample_request(), Err(NoiseError::TooLarge));
}

#[test]
fn largest_offsets_are_exact() {
    let noise = Wrapped3DPerlinNoise::new(0).with_offset(i32::MAX, i32::MIN);
    let request = noise.sample_request().unwrap();
    assert_eq!(request.origin_x, 4 * i32::MAX as i64);
    assert_eq!(request.origin_z, 4 * i32::MIN as i64);
}

#[test]
fn neighbouring_regions_share_a_lattice_plane() {
    let base = Wrapped3DPerlinNoise::new(3).with_offset(5, -7);
    let a = base.sample_request().unwrap();
    let b = base.with_offset(6, -7).sample_request().unwrap();
    assert_eq!(b.origin_x, a.origin_x + a.count_x as i64 - 1);
    assert_eq!(b.origin_z, a.origin_z);
    let c = base.with_offset(5, -6).sample_request().unwrap();
    assert_eq!(c.origin_z, a.origin_z + a.count_z as i64 - 1);
    assert_eq!(c.origin_x, a.origin_x);
}

#[test]
fn same_settings_same_request() {
    let a = Wrapped3DPerlinNoise::new(11).with_offset(1, 2);
    let b = Wrapped3DPerlinNoise::new(11).with_offset(1, 2);
    assert_eq!(a.sample_request(), b.sample_request());
}

#[test]
fn chunk_index_layout() {
    assert_eq!(index(0, 0, 0), 0);
    assert_eq!(index(3, 2, 5), 2 * 256 + 5 * 16 + 3);
    assert_eq!(index(15, 255, 15), 65535);
    assert_eq!(index(1, 0, 0), 1);
    assert_eq!(index(0, 0, 1), 16);
    assert_eq!(index(0, 1, 0), 256);
}

#[test]
fn voxel_index_layout() {
    let noise = Wrapped3DPerlinNoise::new(0).with_size(8, 4).with_scale(2, 2);
    assert_eq!(noise.voxel_index(1, 2, 3), 2 * 64 + 3 * 8 + 1);
    assert_eq!(noise.voxel_index(7, 3, 7), noise.field_len() - 1);
    let chunk = Wrapped3DPerlinNoise::new(0);
    assert_eq!(chunk.voxel_index(3, 2, 5), index(3, 2, 5));
}

#[test]
fn voxel_index_is_a_bijection() {
    let noise = Wrapped3DPerlinNoise::new(0).with_size(4, 6).with_scale(2, 3);
    let mut seen = vec![false; noise.field_len()];
    for y in 0..6 {
        for z in 0..4 {
            for x in 0..4 {
                let i = noise.voxel_index(x, y, z);
                assert!(!seen[i]);
                seen[i] = true;
            }
        }
    }
    assert!(seen.iter().all(|s| *s));
}

#[test]
fn lattice_index_layout() {
    let noise = Wrapped3DPerlinNoise::new(0);
    assert_eq!(noise.uninterpolated_index(1, 2, 3), 2 * 25 + 3 * 5 + 1);
    assert_eq!(noise.uninterpolated_index(4, 32, 4), noise.lattice_len() - 1);
}

#[test]
fn squid_component_is_a_marker() {
    let squid = SquidComponent::default();
    let copy = squid;
    assert_eq!(format!("{:?}", copy), "SquidComponent");
}
