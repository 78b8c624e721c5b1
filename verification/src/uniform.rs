//! The GPU uniform packing contract: a fixed-layout uniform block in
//! standard uniform-buffer alignment.
//!
//! The block is 80 bytes. Each scalar occupies one 32-bit word, stored
//! little-endian; each three-component vector is aligned to 16 bytes. A
//! scalar that follows a vector may occupy the vector's fourth word. Byte
//! offsets of the fields, in declared order:
//!
//! | offset | field                   |
//! |--------|-------------------------|
//! |  0     | `ray_origin` (12 bytes) |
//! | 12     | padding (zero)          |
//! | 16     | `sun_position`          |
//! | 28     | `sun_intensity`         |
//! | 32     | `planet_radius`         |
//! | 36     | `atmosphere_radius`     |
//! | 40     | padding (zero, 8 bytes) |
//! | 48     | `rayleigh_coefficient`  |
//! | 60     | `rayleigh_scale_height` |
//! | 64     | `mie_coefficient`       |
//! | 68     | `mie_scale_height`      |
//! | 72     | `mie_direction`         |
//! | 76     | padding (zero)          |

use crate::params::Atmosphere;
use vstd::prelude::*;

verus! {

/// Total size of the packed uniform block in bytes.
pub const UNIFORM_BLOCK_BYTES: usize = 80;

/// Byte offset of `ray_origin` in the packed block.
pub const RAY_ORIGIN_OFFSET: usize = 0;
/// Byte offset of `sun_position` in the packed block.
pub const SUN_POSITION_OFFSET: usize = 16;
/// Byte offset of `sun_intensity` in the packed block.
pub const SUN_INTENSITY_OFFSET: usize = 28;
/// Byte offset of `planet_radius` in the packed block.
pub const PLANET_RADIUS_OFFSET: usize = 32;
/// Byte offset of `atmosphere_radius` in the packed block.
pub const ATMOSPHERE_RADIUS_OFFSET: usize = 36;
/// Byte offset of `rayleigh_coefficient` in the packed block.
pub const RAYLEIGH_COEFFICIENT_OFFSET: usize = 48;
/// Byte offset of `rayleigh_scale_height` in the packed block.
pub const RAYLEIGH_SCALE_HEIGHT_OFFSET: usize = 60;
/// Byte offset of `mie_coefficient` in the packed block.
pub const MIE_COEFFICIENT_OFFSET: usize = 64;
/// Byte offset of `mie_scale_height` in the packed block.
pub const MIE_SCALE_HEIGHT_OFFSET: usize = 68;
/// Byte offset of `mie_direction` in the packed block.
pub const MIE_DIRECTION_OFFSET: usize = 72;

/// Byte `k` (0 = least significant) of a 32-bit word: little-endian order.
pub open spec fn le_byte(w: u32, k: int) -> u8 {
    if k == 0 {
        (w % 256) as u8
    } else if k == 1 {
        ((w / 256) % 256) as u8
    } else if k == 2 {
        ((w / 65536) % 256) as u8
    } else {
        ((w / 16777216) % 256) as u8
    }
}

/// The four bytes of a 32-bit word, least significant first.
pub open spec fn le32(w: u32) -> Seq<u8> {
    seq![le_byte(w, 0), le_byte(w, 1), le_byte(w, 2), le_byte(w, 3)]
}

/// The packed uniform block of a parameter value: every field in declared
/// order at its documented offset, nothing reordered, omitted or added;
/// padding words are zero.
pub open spec fn uniform_layout(a: Atmosphere) -> Seq<u8> {
    le32(a.ray_origin.x) + le32(a.ray_origin.y) + le32(a.ray_origin.z) + le32(0u32)
        + le32(a.sun_position.x) + le32(a.sun_position.y) + le32(a.sun_position.z)
        + le32(a.sun_intensity) + le32(a.planet_radius) + le32(a.atmosphere_radius)
        + le32(0u32) + le32(0u32) + le32(a.rayleigh_coefficient.x)
        + le32(a.rayleigh_coefficient.y) + le32(a.rayleigh_coefficient.z)
        + le32(a.rayleigh_scale_height) + le32(a.mie_coefficient) + le32(a.mie_scale_height)
        + le32(a.mie_direction) + le32(0u32)
}

/// Appends the four little-endian bytes of `w`.
fn push_u32_le(v: &mut Vec<u8>, w: u32)
    ensures
        final(v)@ == old(v)@ + le32(w),
{
    v.push((w % 256) as u8);
    v.push((w / 256 % 256) as u8);
    v.push((w / 65536 % 256) as u8);
    v.push((w / 16777216 % 256) as u8);
    proof {
        assert(v@ =~= old(v)@ + le32(w));
    }
}

impl Atmosphere {
    /// Packs the parameter value into its uniform block. Packing is a pure
    /// function of the value: it is total, deterministic, and defined by
    /// [`uniform_layout`].
    pub fn to_uniform_bytes(&self) -> (r: Vec<u8>)
        ensures
            r@ == uniform_layout(*self),
            r@.len() == UNIFORM_BLOCK_BYTES,
    {
        let mut v: Vec<u8> = Vec::new();
        push_u32_le(&mut v, self.ray_origin.x);
        push_u32_le(&mut v, self.ray_origin.y);
        push_u32_le(&mut v, self.ray_origin.z);
        push_u32_le(&mut v, 0);
        push_u32_le(&mut v, self.sun_position.x);
        push_u32_le(&mut v, self.sun_position.y);
        push_u32_le(&mut v, self.sun_position.z);
        push_u32_le(&mut v, self.sun_intensity);
        push_u32_le(&mut v, self.planet_radius);
        push_u32_le(&mut v, self.atmosphere_radius);
        push_u32_le(&mut v, 0);
        push_u32_le(&mut v, 0);
        push_u32_le(&mut v, self.rayleigh_coefficient.x);
        push_u32_le(&mut v, self.rayleigh_coefficient.y);
        push_u32_le(&mut v, self.rayleigh_coefficient.z);
        push_u32_le(&mut v, self.rayleigh_scale_height);
        push_u32_le(&mut v, self.mie_coefficient);
        push_u32_le(&mut v, self.mie_scale_height);
        push_u32_le(&mut v, self.mie_direction);
        push_u32_le(&mut v, 0);
        proof {
            assert(v@ =~= uniform_layout(*self));
        }
        v
    }
}

/// Whether the field whose slot covers byte `i` of the block holds the same
/// value in `a` and in `b`. Padding bytes are covered by no field.
pub open spec fn covering_field_eq(a: Atmosphere, b: Atmosphere, i: int) -> bool {
    if 0 <= i < 12 {
        a.ray_origin == b.ray_origin
    } else if 16 <= i < 28 {
        a.sun_position == b.sun_position
    } else if 28 <= i < 32 {
        a.sun_intensity == b.sun_intensity
    } else if 32 <= i < 36 {
        a.planet_radius == b.planet_radius
    } else if 36 <= i < 40 {
        a.atmosphere_radius == b.atmosphere_radius
    } else if 48 <= i < 60 {
        a.rayleigh_coefficient == b.rayleigh_coefficient
    } else if 60 <= i < 64 {
        a.rayleigh_scale_height == b.rayleigh_scale_height
    } else if 64 <= i < 68 {
        a.mie_coefficient == b.mie_coefficient
    } else if 68 <= i < 72 {
        a.mie_scale_height == b.mie_scale_height
    } else if 72 <= i < 76 {
        a.mie_direction == b.mie_direction
    } else {
        true
    }
}

/// Law: every field maps to exactly one location in the block, at its
/// documented offset, and every padding byte is zero.
#[verifier::rlimit(100)]
pub proof fn lemma_field_offsets(a: Atmosphere)
    ensures
        uniform_layout(a).len() == UNIFORM_BLOCK_BYTES,
        uniform_layout(a).subrange(0, 4) == le32(a.ray_origin.x),
        uniform_layout(a).subrange(4, 8) == le32(a.ray_origin.y),
        uniform_layout(a).subrange(8, 12) == le32(a.ray_origin.z),
        uniform_layout(a).subrange(16, 20) == le32(a.sun_position.x),
        uniform_layout(a).subrange(20, 24) == le32(a.sun_position.y),
        uniform_layout(a).subrange(24, 28) == le32(a.sun_position.z),
        uniform_layout(a).subrange(28, 32) == le32(a.sun_intensity),
        uniform_layout(a).subrange(32, 36) == le32(a.planet_radius),
        uniform_layout(a).subrange(36, 40) == le32(a.atmosphere_radius),
        uniform_layout(a).subrange(48, 52) == le32(a.rayleigh_coefficient.x),
        uniform_layout(a).subrange(52, 56) == le32(a.rayleigh_coefficient.y),
        uniform_layout(a).subrange(56, 60) == le32(a.rayleigh_coefficient.z),
        uniform_layout(a).subrange(60, 64) == le32(a.rayleigh_scale_height),
        uniform_layout(a).subrange(64, 68) == le32(a.mie_coefficient),
        uniform_layout(a).subrange(68, 72) == le32(a.mie_scale_height),
        uniform_layout(a).subrange(72, 76) == le32(a.mie_direction),
        forall|i: int| (12 <= i < 16 || 40 <= i < 48 || 76 <= i < 80) ==> uniform_layout(a)[i] == 0u8,
{
    assert(uniform_layout(a).subrange(0, 4) =~= le32(a.ray_origin.x));
    assert(uniform_layout(a).subrange(4, 8) =~= le32(a.ray_origin.y));
    assert(uniform_layout(a).subrange(8, 12) =~= le32(a.ray_origin.z));
    assert(uniform_layout(a).subrange(16, 20) =~= le32(a.sun_position.x));
    assert(uniform_layout(a).subrange(20, 24) =~= le32(a.sun_position.y));
    assert(uniform_layout(a).subrange(24, 28) =~= le32(a.sun_position.z));
    assert(uniform_layout(a).subrange(28, 32) =~= le32(a.sun_intensity));
    assert(uniform_layout(a).subrange(32, 36) =~= le32(a.planet_radius));
    assert(uniform_layout(a).subrange(36, 40) =~= le32(a.atmosphere_radius));
    assert(uniform_layout(a).subrange(48, 52) =~= le32(a.rayleigh_coefficient.x));
    assert(uniform_layout(a).subrange(52, 56) =~= le32(a.rayleigh_coefficient.y));
    assert(uniform_layout(a).subrange(56, 60) =~= le32(a.rayleigh_coefficient.z));
    assert(uniform_layout(a).subrange(60, 64) =~= le32(a.rayleigh_scale_height));
    assert(uniform_layout(a).subrange(64, 68) =~= le32(a.mie_coefficient));
    assert(uniform_layout(a).subrange(68, 72) =~= le32(a.mie_scale_height));
    assert(uniform_layout(a).subrange(72, 76) =~= le32(a.mie_direction));
}

/// Law: packing is a pure function of the value, and it is local. Two equal
/// values pack to identical blocks; and wherever two packed blocks differ at
/// a byte, the field covering that byte differs — so two values that differ
/// in exactly one field pack to blocks that differ only within that field's
/// documented offsets.
#[verifier::rlimit(100)]
pub proof fn lemma_pack_locality(a: Atmosphere, b: Atmosphere)
    ensures
        a == b ==> uniform_layout(a) == uniform_layout(b),
        forall|i: int|
            0 <= i < 80 && covering_field_eq(a, b, i) ==> uniform_layout(a)[i] == uniform_layout(
                b,
            )[i],
{
    lemma_field_offsets(a);
    lemma_field_offsets(b);
    let la = uniform_layout(a);
    let lb = uniform_layout(b);
    assert forall|i: int| 0 <= i < 80 && covering_field_eq(a, b, i) implies la[i] == lb[i] by {
        if 0 <= i < 4 {
            assert(la[i] == la.subrange(0, 4)[i]);
            assert(lb[i] == lb.subrange(0, 4)[i]);
        } else if 4 <= i < 8 {
            assert(la[i] == la.subrange(4, 8)[i - 4]);
            assert(lb[i] == lb.subrange(4, 8)[i - 4]);
        } else if 8 <= i < 12 {
            assert(la[i] == la.subrange(8, 12)[i - 8]);
            assert(lb[i] == lb.subrange(8, 12)[i - 8]);
        } else if 16 <= i < 20 {
            assert(la[i] == la.subrange(16, 20)[i - 16]);
            assert(lb[i] == lb.subrange(16, 20)[i - 16]);
        } else if 20 <= i < 24 {
            assert(la[i] == la.subrange(20, 24)[i - 20]);
            assert(lb[i] == lb.subrange(20, 24)[i - 20]);
        } else if 24 <= i < 28 {
            assert(la[i] == la.subrange(24, 28)[i - 24]);
            assert(lb[i] == lb.subrange(24, 28)[i - 24]);
        } else if 28 <= i < 32 {
            assert(la[i] == la.subrange(28, 32)[i - 28]);
            assert(lb[i] == lb.subrange(28, 32)[i - 28]);
        } else if 32 <= i < 36 {
            assert(la[i] == la.subrange(32, 36)[i - 32]);
            assert(lb[i] == lb.subrange(32, 36)[i - 32]);
        } else if 36 <= i < 40 {
            assert(la[i] == la.subrange(36, 40)[i - 36]);
            assert(lb[i] == lb.subrange(36, 40)[i - 36]);
        } else if 48 <= i < 52 {
            assert(la[i] == la.subrange(48, 52)[i - 48]);
            assert(lb[i] == lb.subrange(48, 52)[i - 48]);
        } else if 52 <= i < 56 {
            assert(la[i] == la.subrange(52, 56)[i - 52]);
            assert(lb[i] == lb.subrange(52, 56)[i - 52]);
        } else if 56 <= i < 60 {
            assert(la[i] == la.subrange(56, 60)[i - 56]);
            assert(lb[i] == lb.subrange(56, 60)[i - 56]);
        } else if 60 <= i < 64 {
            assert(la[i] == la.subrange(60, 64)[i - 60]);
            assert(lb[i] == lb.subrange(60, 64)[i - 60]);
        } else if 64 <= i < 68 {
            assert(la[i] == la.subrange(64, 68)[i - 64]);
            assert(lb[i] == lb.subrange(64, 68)[i - 64]);
        } else if 68 <= i < 72 {
            assert(la[i] == la.subrange(68, 72)[i - 68]);
            assert(lb[i] == lb.subrange(68, 72)[i - 68]);
        } else if 72 <= i < 76 {
            assert(la[i] == la.subrange(72, 76)[i - 72]);
            assert(lb[i] == lb.subrange(72, 76)[i - 72]);
        }
    }
}

} // verus!
