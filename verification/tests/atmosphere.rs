use atmosphere::extract::extract_atmosphere;
use atmosphere::params::Atmosphere;
use atmosphere::params::Vec3Bits;
use atmosphere::uniform::ATMOSPHERE_RADIUS_OFFSET;
use atmosphere::uniform::MIE_COEFFICIENT_OFFSET;
use atmosphere::uniform::MIE_DIRECTION_OFFSET;
use atmosphere::uniform::MIE_SCALE_HEIGHT_OFFSET;
use atmosphere::uniform::PLANET_RADIUS_OFFSET;
use atmosphere::uniform::RAYLEIGH_COEFFICIENT_OFFSET;
use atmosphere::uniform::RAYLEIGH_SCALE_HEIGHT_OFFSET;
use atmosphere::uniform::RAY_ORIGIN_OFFSET;
use atmosphere::uniform::SUN_INTENSITY_OFFSET;
use atmosphere::uniform::SUN_POSITION_OFFSET;
use atmosphere::uniform::UNIFORM_BLOCK_BYTES;

fn vec3_bits(x: f32, y: f32, z: f32) -> Vec3Bits {
    Vec3Bits::new(x.to_bits(), y.to_bits(), z.to_bits())
}

fn scalar_at(bytes: &[u8], offset: usize) -> f32 {
    f32::from_le_bytes([bytes[offset], bytes[offset + 1], bytes[offset + 2], bytes[offset + 3]])
}

fn vec3_at(bytes: &[u8], offset: usize) -> [f32; 3] {
    [
        scalar_at(bytes, offset),
        scalar_at(bytes, offset + 4),
        scalar_at(bytes, offset + 8),
    ]
}

#[test]
fn default_matches_documented_values() {
    let a = Atmosphere::default();
    assert_eq!(f32::from_bits(a.ray_origin.x), 0.0);
    assert_eq!(f32::from_bits(a.ray_origin.y), 6372e3);
    assert_eq!(f32::from_bits(a.ray_origin.z), 0.0);
    assert_eq!(f32::from_bits(a.sun_position.x), 1.0);
    assert_eq!(f32::from_bits(a.sun_position.y), 1.0);
    assert_eq!(f32::from_bits(a.sun_position.z), 1.0);
    assert_eq!(f32::from_bits(a.sun_intensity), 22.0);
    assert_eq!(f32::from_bits(a.planet_radius), 6371e3);
    assert_eq!(f32::from_bits(a.atmosphere_radius), 6471e3);
    assert_eq!(f32::from_bits(a.rayleigh_coefficient.x), 5.5e-6);
    assert_eq!(f32::from_bits(a.rayleigh_coefficient.y), 13.0e-6);
    assert_eq!(f32::from_bits(a.rayleigh_coefficient.z), 22.4e-6);
    assert_eq!(f32::from_bits(a.rayleigh_scale_height), 8e3);
    assert_eq!(f32::from_bits(a.mie_coefficient), 21e-6);
    assert_eq!(f32::from_bits(a.mie_scale_height), 1.2e3);
    assert_eq!(f32::from_bits(a.mie_direction), 0.758);
}

#[test]
fn default_is_deterministic() {
    assert_eq!(Atmosphere::default(), Atmosphere::default());
}

#[test]
fn from_reference_copies_every_field_independently() {
    let mut original = Atmosphere::default();
    original.sun_intensity = 40.0f32.to_bits();
    original.ray_origin = vec3_bits(1.0, 6372e3, -1.0);
    let copy = Atmosphere::from(&original);
    assert_eq!(copy, original);
    // Mutating the original afterwards must not change the copy.
    let before = copy;
    original.sun_intensity = 11.0f32.to_bits();
    original.mie_direction = 0.5f32.to_bits();
    assert_eq!(copy, before);
    assert_ne!(copy.sun_intensity, original.sun_intensity);
}

#[test]
fn packing_same_value_twice_is_byte_identical() {
    let mut a = Atmosphere::default();
    a.mie_scale_height = 1500.0f32.to_bits();
    assert_eq!(a.to_uniform_bytes(), a.to_uniform_bytes());
}

#[test]
fn packing_differs_only_at_changed_field() {
    let a = Atmosphere::default();
    let mut b = a;
    b.sun_intensity = 30.0f32.to_bits();
    let pa = a.to_uniform_bytes();
    let pb = b.to_uniform_bytes();
    assert_eq!(pa.len(), UNIFORM_BLOCK_BYTES);
    assert_eq!(pb.len(), UNIFORM_BLOCK_BYTES);
    for i in 0..UNIFORM_BLOCK_BYTES {
        if i < SUN_INTENSITY_OFFSET || i >= SUN_INTENSITY_OFFSET + 4 {
            assert_eq!(pa[i], pb[i], "byte {} outside sun_intensity differs", i);
        }
    }
    assert_ne!(
        &pa[SUN_INTENSITY_OFFSET..SUN_INTENSITY_OFFSET + 4],
        &pb[SUN_INTENSITY_OFFSET..SUN_INTENSITY_OFFSET + 4]
    );
}

#[test]
fn packed_block_has_documented_layout() {
    let bytes = Atmosphere::default().to_uniform_bytes();
    assert_eq!(bytes.len(), 80);
    assert_eq!(vec3_at(&bytes, RAY_ORIGIN_OFFSET), [0.0, 6372e3, 0.0]);
    assert_eq!(vec3_at(&bytes, SUN_POSITION_OFFSET), [1.0, 1.0, 1.0]);
    assert_eq!(scalar_at(&bytes, SUN_INTENSITY_OFFSET), 22.0);
    assert_eq!(scalar_at(&bytes, PLANET_RADIUS_OFFSET), 6371e3);
    assert_eq!(scalar_at(&bytes, ATMOSPHERE_RADIUS_OFFSET), 6471e3);
    assert_eq!(
        vec3_at(&bytes, RAYLEIGH_COEFFICIENT_OFFSET),
        [5.5e-6, 13.0e-6, 22.4e-6]
    );
    assert_eq!(scalar_at(&bytes, RAYLEIGH_SCALE_HEIGHT_OFFSET), 8e3);
    assert_eq!(scalar_at(&bytes, MIE_COEFFICIENT_OFFSET), 21e-6);
    assert_eq!(scalar_at(&bytes, MIE_SCALE_HEIGHT_OFFSET), 1.2e3);
    assert_eq!(scalar_at(&bytes, MIE_DIRECTION_OFFSET), 0.758);
    // Padding bytes are zero.
    for i in 12..16 {
        assert_eq!(bytes[i], 0);
    }
    for i in 40..48 {
        assert_eq!(bytes[i], 0);
    }
    for i in 76..80 {
        assert_eq!(bytes[i], 0);
    }
}

#[test]
fn extraction_with_no_value_is_a_noop() {
    let mut empty_store: Option<Atmosphere> = None;
    extract_atmosphere(&None, &mut empty_store);
    assert_eq!(empty_store, None);

    let mut filled = Atmosphere::default();
    filled.sun_intensity = 7.5f32.to_bits();
    let mut store = Some(filled);
    extract_atmosphere(&None, &mut store);
    // The previous copy stays; no default is substituted.
    assert_eq!(store, Some(filled));
}

#[test]
fn extraction_twice_keeps_exactly_the_second_value() {
    let mut first = Atmosphere::default();
    first.sun_intensity = 10.0f32.to_bits();
    let mut second = Atmosphere::default();
    second.sun_intensity = 20.0f32.to_bits();
    second.mie_direction = 0.9f32.to_bits();

    let mut store: Option<Atmosphere> = None;
    extract_atmosphere(&Some(first), &mut store);
    extract_atmosphere(&Some(second), &mut store);
    assert_eq!(store, Some(second));
}

#[test]
fn extracted_copy_does_not_alias_the_source() {
    let mut source = Some(Atmosphere::default());
    let mut store: Option<Atmosphere> = None;
    extract_atmosphere(&source, &mut store);
    if let Some(s) = source.as_mut() {
        s.sun_intensity = 1.0f32.to_bits();
    }
    assert_eq!(store, Some(Atmosphere::default()));
}

#[test]
fn end_to_end_sun_intensity_roundtrip() {
    let mut sky = Atmosphere::default();
    sky.sun_intensity = 30.0f32.to_bits();

    let mut store: Option<Atmosphere> = None;
    extract_atmosphere(&Some(sky), &mut store);
    let extracted = store.expect("a value was configured, so extraction publishes it");
    let bytes = extracted.to_uniform_bytes();

    assert_eq!(scalar_at(&bytes, SUN_INTENSITY_OFFSET), 30.0);
    // Every other field still decodes to its default.
    assert_eq!(vec3_at(&bytes, RAY_ORIGIN_OFFSET), [0.0, 6372e3, 0.0]);
    assert_eq!(vec3_at(&bytes, SUN_POSITION_OFFSET), [1.0, 1.0, 1.0]);
    assert_eq!(scalar_at(&bytes, PLANET_RADIUS_OFFSET), 6371e3);
    assert_eq!(scalar_at(&bytes, ATMOSPHERE_RADIUS_OFFSET), 6471e3);
    assert_eq!(
        vec3_at(&bytes, RAYLEIGH_COEFFICIENT_OFFSET),
        [5.5e-6, 13.0e-6, 22.4e-6]
    );
    assert_eq!(scalar_at(&bytes, RAYLEIGH_SCALE_HEIGHT_OFFSET), 8e3);
    assert_eq!(scalar_at(&bytes, MIE_COEFFICIENT_OFFSET), 21e-6);
    assert_eq!(scalar_at(&bytes, MIE_SCALE_HEIGHT_OFFSET), 1.2e3);
    assert_eq!(scalar_at(&bytes, MIE_DIRECTION_OFFSET), 0.758);
}
