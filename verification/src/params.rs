//! The atmosphere parameter model: a plain value type with copy semantics,
//! a documented default matching Earth's atmosphere, and
//! construct-from-reference duplication.
//!
//! Every scalar is stored as the bit pattern of an IEEE-754 single-precision
//! value (the `u32` returned by `f32::to_bits`). The model never does
//! arithmetic on these values — it only holds, copies and packs them — so the
//! bit-level representation loses nothing and lets every contract be exact.

use vstd::prelude::*;

verus! {

/// Bit pattern of `0.0`.
pub const DEFAULT_RAY_ORIGIN_X: u32 = 0x0000_0000;
/// Bit pattern of `6372e3` (slightly above the default planet radius).
pub const DEFAULT_RAY_ORIGIN_Y: u32 = 0x4AC2_7540;
/// Bit pattern of `0.0`.
pub const DEFAULT_RAY_ORIGIN_Z: u32 = 0x0000_0000;
/// Bit pattern of `1.0`.
pub const DEFAULT_SUN_POSITION_X: u32 = 0x3F80_0000;
/// Bit pattern of `1.0`.
pub const DEFAULT_SUN_POSITION_Y: u32 = 0x3F80_0000;
/// Bit pattern of `1.0`.
pub const DEFAULT_SUN_POSITION_Z: u32 = 0x3F80_0000;
/// Bit pattern of `22.0`.
pub const DEFAULT_SUN_INTENSITY: u32 = 0x41B0_0000;
/// Bit pattern of `6371e3` (Earth's radius in metres).
pub const DEFAULT_PLANET_RADIUS: u32 = 0x4AC2_6D70;
/// Bit pattern of `6471e3` (planet radius plus a 100 km atmosphere shell).
pub const DEFAULT_ATMOSPHERE_RADIUS: u32 = 0x4AC5_7AB0;
/// Bit pattern of `5.5e-6`.
pub const DEFAULT_RAYLEIGH_COEFFICIENT_X: u32 = 0x36B8_8CA4;
/// Bit pattern of `13.0e-6`.
pub const DEFAULT_RAYLEIGH_COEFFICIENT_Y: u32 = 0x375A_1A93;
/// Bit pattern of `22.4e-6`.
pub const DEFAULT_RAYLEIGH_COEFFICIENT_Z: u32 = 0x37BB_E7A2;
/// Bit pattern of `8e3`.
pub const DEFAULT_RAYLEIGH_SCALE_HEIGHT: u32 = 0x45FA_0000;
/// Bit pattern of `21e-6`.
pub const DEFAULT_MIE_COEFFICIENT: u32 = 0x37B0_2928;
/// Bit pattern of `1.2e3`.
pub const DEFAULT_MIE_SCALE_HEIGHT: u32 = 0x4496_0000;
/// Bit pattern of `0.758`.
pub const DEFAULT_MIE_DIRECTION: u32 = 0x3F42_0C4A;

/// A three-component vector whose lanes are bit patterns of IEEE-754
/// single-precision values.
#[derive(Clone, Copy, Debug, PartialEq, Eq, Structural)]
pub struct Vec3Bits {
    pub x: u32,
    pub y: u32,
    pub z: u32,
}

impl Vec3Bits {
    pub fn new(x: u32, y: u32, z: u32) -> (r: Vec3Bits)
        ensures
            r == (Vec3Bits { x, y, z }),
    {
        Vec3Bits { x, y, z }
    }
}

/// Controls the appearance of the atmosphere.
///
/// The simulation is based on Rayleigh and Mie scattering.
///
/// Rayleigh scattering is caused by light passing through particles smaller
/// than its wavelength; it is the cause of the color of the sky and of
/// sunsets. Mie scattering is caused by light passing through particles of a
/// size similar to the wavelength; it is the cause of the sky getting
/// lighter toward the horizon.
///
/// This is a plain value type: duplicating it is cheap and creates no
/// aliasing. Fields may be overwritten freely; no range validation is
/// performed here. In particular `planet_radius < atmosphere_radius` is an
/// assumed precondition of the downstream shader, not checked by this model.
#[derive(Clone, Copy, Debug, PartialEq, Eq, Structural)]
pub struct Atmosphere {
    /// Ray origin (default: the bits of `(0.0, 6372e3, 0.0)`).
    ///
    /// Observer position relative to the planet center; acts as the up-axis
    /// and controls the height of the sun.
    pub ray_origin: Vec3Bits,
    /// Sun position (default: the bits of `(1.0, 1.0, 1.0)`).
    ///
    /// Direction toward the sun; magnitude is irrelevant, the consumer
    /// normalizes it.
    pub sun_position: Vec3Bits,
    /// Sun intensity (default: the bits of `22.0`).
    pub sun_intensity: u32,
    /// Planet radius (default: the bits of `6371e3`).
    pub planet_radius: u32,
    /// Atmosphere radius (default: the bits of `6471e3`).
    pub atmosphere_radius: u32,
    /// Per-channel Rayleigh scattering coefficient
    /// (default: the bits of `(5.5e-6, 13.0e-6, 22.4e-6)`).
    pub rayleigh_coefficient: Vec3Bits,
    /// Exponential falloff height for Rayleigh density
    /// (default: the bits of `8e3`).
    pub rayleigh_scale_height: u32,
    /// Mie scattering coefficient, a scalar (default: the bits of `21e-6`).
    pub mie_coefficient: u32,
    /// Exponential falloff height for Mie density
    /// (default: the bits of `1.2e3`).
    pub mie_scale_height: u32,
    /// Mie phase-function anisotropy, in `(-1, 1)`
    /// (default: the bits of `0.758`).
    pub mie_direction: u32,
}

/// The default parameter set: Earth's atmosphere.
pub open spec fn spec_default_atmosphere() -> Atmosphere {
    Atmosphere {
        ray_origin: Vec3Bits {
            x: DEFAULT_RAY_ORIGIN_X,
            y: DEFAULT_RAY_ORIGIN_Y,
            z: DEFAULT_RAY_ORIGIN_Z,
        },
        sun_position: Vec3Bits {
            x: DEFAULT_SUN_POSITION_X,
            y: DEFAULT_SUN_POSITION_Y,
            z: DEFAULT_SUN_POSITION_Z,
        },
        sun_intensity: DEFAULT_SUN_INTENSITY,
        planet_radius: DEFAULT_PLANET_RADIUS,
        atmosphere_radius: DEFAULT_ATMOSPHERE_RADIUS,
        rayleigh_coefficient: Vec3Bits {
            x: DEFAULT_RAYLEIGH_COEFFICIENT_X,
            y: DEFAULT_RAYLEIGH_COEFFICIENT_Y,
            z: DEFAULT_RAYLEIGH_COEFFICIENT_Z,
        },
        rayleigh_scale_height: DEFAULT_RAYLEIGH_SCALE_HEIGHT,
        mie_coefficient: DEFAULT_MIE_COEFFICIENT,
        mie_scale_height: DEFAULT_MIE_SCALE_HEIGHT,
        mie_direction: DEFAULT_MIE_DIRECTION,
    }
}

impl Default for Atmosphere {
    /// Deterministically yields the documented default parameter set;
    /// there is no error path.
    fn default() -> (r: Atmosphere)
        ensures
            r == spec_default_atmosphere(),
    {
        Atmosphere {
            ray_origin: Vec3Bits::new(DEFAULT_RAY_ORIGIN_X, DEFAULT_RAY_ORIGIN_Y, DEFAULT_RAY_ORIGIN_Z),
            sun_position: Vec3Bits::new(DEFAULT_SUN_POSITION_X, DEFAULT_SUN_POSITION_Y, DEFAULT_SUN_POSITION_Z),
            sun_intensity: DEFAULT_SUN_INTENSITY,
            planet_radius: DEFAULT_PLANET_RADIUS,
            atmosphere_radius: DEFAULT_ATMOSPHERE_RADIUS,
            rayleigh_coefficient: Vec3Bits::new(
                DEFAULT_RAYLEIGH_COEFFICIENT_X,
                DEFAULT_RAYLEIGH_COEFFICIENT_Y,
                DEFAULT_RAYLEIGH_COEFFICIENT_Z,
            ),
            rayleigh_scale_height: DEFAULT_RAYLEIGH_SCALE_HEIGHT,
            mie_coefficient: DEFAULT_MIE_COEFFICIENT,
            mie_scale_height: DEFAULT_MIE_SCALE_HEIGHT,
            mie_direction: DEFAULT_MIE_DIRECTION,
        }
    }
}

impl From<&Atmosphere> for Atmosphere {
    /// Construct-from-reference: an independent, value-equal copy of the
    /// referenced parameter set. This is how the render-side store is
    /// populated without taking ownership of the application's live value.
    fn from(atmosphere: &Atmosphere) -> (r: Atmosphere) {
        *atmosphere
    }
}

impl vstd::std_specs::convert::FromSpecImpl<&Atmosphere> for Atmosphere {
    open spec fn obeys_from_spec() -> bool {
        true
    }

    open spec fn from_spec(atmosphere: &Atmosphere) -> Atmosphere {
        *atmosphere
    }
}

} // verus!
