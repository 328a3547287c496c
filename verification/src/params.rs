//! The parameter record of one blur request and its frozen byte layout.
//!
//! The native library reads this record by raw memory layout, so the field
//! order, the field widths and the absence of padding between fields are
//! part of the boundary contract.  [`EffectParams::encode`] produces exactly
//! those bytes, little-endian, and [`spec_bytes`] is their specification.
//!
//! The effect strength travels as the bit pattern of a 32-bit IEEE-754
//! number ([`EffectParams::intensity_bits`]); the adapter that makes the
//! native call turns the bits back into the number.  Interpretation of the
//! strength (valid range, clamping) is owned by the native library.

use vstd::prelude::*;

verus! {

/// Schema version the native library currently expects in
/// [`EffectParams::struct_version`].
pub const CURRENT_STRUCT_VERSION: u32 = 1;

/// Bit pattern of the 32-bit IEEE-754 number 1.0, the default effect
/// strength.
pub const DEFAULT_INTENSITY_BITS: u32 = 0x3F80_0000;

/// Default tint: a half-transparent black in packed
/// alpha/red/green/blue form.
pub const DEFAULT_COLOR_ARGB: u32 = 0x8000_0000;

/// One blur request, in the exact shape the native boundary expects.
///
/// Constructed fresh for every call and never stored.  The reserved fields
/// are forward-compatibility padding: always zero, never interpreted.
#[derive(Clone, Copy)]
pub struct EffectParams {
    /// Schema version; must equal [`CURRENT_STRUCT_VERSION`].
    pub struct_version: u32,
    /// Effect strength as the bits of a 32-bit IEEE-754 number.
    pub intensity_bits: u32,
    /// Packed alpha/red/green/blue tint.
    pub color_argb: u32,
    /// Optional transition flag; zero means no animation.
    pub animate: u8,
    /// Transition length in milliseconds; zero when [`Self::animate`] is zero.
    pub animation_ms: u32,
    /// Reserved word; always zero.
    pub reserved_flags: u32,
    /// Four reserved trailing bytes; always zero.
    pub reserved_padding: u32,
}

impl EffectParams {
    /// The default request: schema version 1, full strength,
    /// half-transparent black, no animation, reserved fields zero.
    pub open spec fn spec_default() -> EffectParams {
        EffectParams {
            struct_version: CURRENT_STRUCT_VERSION,
            intensity_bits: DEFAULT_INTENSITY_BITS,
            color_argb: DEFAULT_COLOR_ARGB,
            animate: 0,
            animation_ms: 0,
            reserved_flags: 0,
            reserved_padding: 0,
        }
    }

    /// The default request with the strength and the tint overridden.
    pub open spec fn spec_new(intensity_bits: u32, color_argb: u32) -> EffectParams {
        EffectParams {
            intensity_bits,
            color_argb,
            ..EffectParams::spec_default()
        }
    }

    /// Build a request with the given strength and tint; every other field
    /// keeps its default.
    pub fn new(intensity_bits: u32, color_argb: u32) -> (r: EffectParams)
        ensures
            r == EffectParams::spec_new(intensity_bits, color_argb),
    {
        EffectParams {
            struct_version: CURRENT_STRUCT_VERSION,
            intensity_bits,
            color_argb,
            animate: 0,
            animation_ms: 0,
            reserved_flags: 0,
            reserved_padding: 0,
        }
    }

    /// Serialize the request into the exact bytes the native boundary
    /// reads: every field little-endian, in declaration order, with no
    /// padding in between.
    pub fn encode(&self) -> (r: Vec<u8>)
        ensures
            r@ == spec_bytes(*self),
    {
        let mut v: Vec<u8> = Vec::new();
        push_u32_le(&mut v, self.struct_version);
        push_u32_le(&mut v, self.intensity_bits);
        push_u32_le(&mut v, self.color_argb);
        v.push(self.animate);
        push_u32_le(&mut v, self.animation_ms);
        push_u32_le(&mut v, self.reserved_flags);
        push_u32_le(&mut v, self.reserved_padding);
        proof {
            assert(v@ =~= spec_bytes(*self));
        }
        v
    }
}

impl Default for EffectParams {
    /// Build the default request of [`EffectParams::spec_default`].
    fn default() -> (r: EffectParams)
        ensures
            r == EffectParams::spec_default(),
    {
        EffectParams::new(DEFAULT_INTENSITY_BITS, DEFAULT_COLOR_ARGB)
    }
}

/// The four bytes of `x`, least significant first.
pub open spec fn u32_le(x: u32) -> Seq<u8> {
    seq![
        (x & 0xff) as u8,
        ((x >> 8) & 0xff) as u8,
        ((x >> 16) & 0xff) as u8,
        ((x >> 24) & 0xff) as u8,
    ]
}

/// The frozen 25-byte layout of one request: `struct_version`,
/// `intensity_bits`, `color_argb` (4 bytes each, little-endian), `animate`
/// (1 byte), then `animation_ms`, `reserved_flags` and the reserved
/// padding (4 bytes each, little-endian).
pub open spec fn spec_bytes(p: EffectParams) -> Seq<u8> {
    u32_le(p.struct_version) + u32_le(p.intensity_bits) + u32_le(p.color_argb) + seq![p.animate]
        + u32_le(p.animation_ms) + u32_le(p.reserved_flags) + u32_le(p.reserved_padding)
}

/// Append the four little-endian bytes of `x` to `v`.
fn push_u32_le(v: &mut Vec<u8>, x: u32)
    ensures
        final(v)@ == old(v)@ + u32_le(x),
{
    proof {
        assert(x & 0xff < 256 && (x >> 8) & 0xff < 256 && (x >> 16) & 0xff < 256 && (x >> 24)
            & 0xff < 256) by (bit_vector);
    }
    v.push((x & 0xff) as u8);
    v.push(((x >> 8) & 0xff) as u8);
    v.push(((x >> 16) & 0xff) as u8);
    v.push(((x >> 24) & 0xff) as u8);
    proof {
        assert(v@ =~= old(v)@ + u32_le(x));
    }
}

} // verus!
