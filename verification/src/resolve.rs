//! The three pure resolvers: bit depth, transparency (with exact 5-bit to
//! 8-bit channel expansion) and the area rectangle, plus the fully resolved
//! parameter set handed to the conversion engine.

use vstd::prelude::*;

use crate::types::BitDepth;
use crate::types::Color;
use crate::types::Compression;
use crate::types::Error;
use crate::types::Transparency;

verus! {

/// The engine-facing bit-depth directive: one of the fixed texture-format
/// presets, or a raw bits-per-pixel count.
#[derive(Clone, Copy, Debug, PartialEq, Eq, Structural)]
pub enum BitDepthDirective {
    TextureA3I5,
    TextureA5I3,
    TextureFourByFour,
    BitsPerPixel(u8),
}

/// The engine-facing transparency directive. The color-key channels are kept
/// in blue/green/red order because that is the order the engine stores them.
#[derive(Clone, Copy, Debug, PartialEq, Eq, Structural)]
pub enum TransparencyDirective {
    /// Graphics mode with an alpha bit per pixel; no color key is set.
    AlphaBit,
    /// A color key with exact 8-bit channels.
    ColorKey { blue: u8, green: u8, red: u8 },
}

/// The fully resolved crop rectangle. `left` and `top` are always bound;
/// `right` and `bottom` stay `None` when the engine's own default applies.
#[derive(Clone, Copy, Debug, PartialEq, Eq)]
pub struct AreaRect {
    pub left: i32,
    pub top: i32,
    pub right: Option<i32>,
    pub bottom: Option<i32>,
}

/// The complete, defaulted, validated set of low-level conversion directives
/// handed to the external engine.
#[derive(Clone, Copy, Debug, PartialEq, Eq)]
pub struct ResolvedParameters {
    pub tile_width: u8,
    pub tile_height: u8,
    pub meta_width: u8,
    pub meta_height: u8,
    /// `None` means no override was given and the engine's default applies.
    pub bit_depth: Option<BitDepthDirective>,
    pub area: AreaRect,
    pub transparency: TransparencyDirective,
    /// Applied uniformly to the graphics, palette and map streams;
    /// `None` leaves the engine's default untouched.
    pub compression: Option<Compression>,
}

/// The custom bit-depth counts the engine accepts: the powers of two below 32.
pub open spec fn spec_bit_depth_valid(n: u8) -> bool {
    n == 1 || n == 2 || n == 4 || n == 8 || n == 16
}

/// What the bit-depth resolver returns for every override.
pub open spec fn spec_resolve_bit_depth(d: BitDepth) -> Result<BitDepthDirective, Error> {
    match d {
        BitDepth::A3I5 => Ok(BitDepthDirective::TextureA3I5),
        BitDepth::A5I3 => Ok(BitDepthDirective::TextureA5I3),
        BitDepth::FourByFour => Ok(BitDepthDirective::TextureFourByFour),
        BitDepth::Custom(n) => if spec_bit_depth_valid(n) {
            Ok(BitDepthDirective::BitsPerPixel(n))
        } else {
            Err(Error::BadBitDepth(n))
        },
    }
}

/// Maps a bit-depth override to its engine directive. A custom count must be
/// a power of two below 32; anything else is a hard `BadBitDepth` error.
pub fn resolve_bit_depth(d: BitDepth) -> (r: Result<BitDepthDirective, Error>)
    ensures
        r == spec_resolve_bit_depth(d),
{
    match d {
        BitDepth::A3I5 => Ok(BitDepthDirective::TextureA3I5),
        BitDepth::A5I3 => Ok(BitDepthDirective::TextureA5I3),
        BitDepth::FourByFour => Ok(BitDepthDirective::TextureFourByFour),
        BitDepth::Custom(n) => {
            if n > 0 && n < 32 && (n & (n - 1)) == 0 {
                proof {
                    assert((n > 0 && n < 32 && (n & (n - 1) as u8) == 0) ==> spec_bit_depth_valid(
                        n,
                    )) by (bit_vector);
                }
                Ok(BitDepthDirective::BitsPerPixel(n))
            } else {
                proof {
                    assert(!(n > 0 && n < 32 && (n & (n - 1) as u8) == 0)
                        ==> !spec_bit_depth_valid(n)) by (bit_vector);
                }
                Err(Error::BadBitDepth(n))
            }
        },
    }
}

/// Law: a custom bit depth resolves successfully exactly when the count is a
/// power of two below 32 (by the standard mask test), that is, for 1, 2, 4,
/// 8 and 16; every other count fails with `BadBitDepth` carrying that count.
pub proof fn lemma_custom_bit_depth(n: u8)
    ensures
        spec_resolve_bit_depth(BitDepth::Custom(n)) is Ok <==> (0 < n && n < 32 && (n & (n
            - 1) as u8) == 0),
        spec_bit_depth_valid(n) ==> spec_resolve_bit_depth(BitDepth::Custom(n))
            == Ok::<BitDepthDirective, Error>(BitDepthDirective::BitsPerPixel(n)),
        !spec_bit_depth_valid(n) ==> spec_resolve_bit_depth(BitDepth::Custom(n))
            == Err::<BitDepthDirective, Error>(Error::BadBitDepth(n)),
{
    assert((0 < n && n < 32 && (n & (n - 1) as u8) == 0) <==> (n == 1 || n == 2 || n == 4 || n
        == 8 || n == 16)) by (bit_vector);
}

/// Expands a 5-bit channel (0 to 31) to 8 bits (0 to 255) by multiplying by
/// 255 and dividing by 31, truncating.
pub open spec fn spec_expand5(c: u16) -> u8
    recommends
        c < 32,
{
    ((c * 255) / 31) as u8
}

/// What the transparency resolver returns for every selection. A packed
/// 16-bit color is split into its 5-bit channels (red in bits 0-4, green in
/// 5-9, blue in 10-14), each expanded exactly.
pub open spec fn spec_resolve_transparency(t: Transparency) -> TransparencyDirective {
    match t {
        Transparency::Disabled => TransparencyDirective::AlphaBit,
        Transparency::Color(Color::RGB { r, g, b }) => TransparencyDirective::ColorKey {
            blue: b,
            green: g,
            red: r,
        },
        Transparency::Color(Color::GBR16(v)) => TransparencyDirective::ColorKey {
            blue: spec_expand5((v >> 10) & 31),
            green: spec_expand5((v >> 5) & 31),
            red: spec_expand5(v & 31),
        },
    }
}

/// Expands one 5-bit channel to 8 bits with truncating integer division.
pub fn expand_channel5(c: u16) -> (r: u8)
    requires
        c < 32,
    ensures
        r == spec_expand5(c),
{
    (c * 255 / 31) as u8
}

/// Maps a transparency selection to its engine directive. Total: every
/// selection resolves.
pub fn resolve_transparency(t: Transparency) -> (r: TransparencyDirective)
    ensures
        r == spec_resolve_transparency(t),
{
    match t {
        Transparency::Disabled => TransparencyDirective::AlphaBit,
        Transparency::Color(Color::RGB { r, g, b }) => TransparencyDirective::ColorKey {
            blue: b,
            green: g,
            red: r,
        },
        Transparency::Color(Color::GBR16(v)) => {
            proof {
                assert((v >> 10) & 31 < 32 && (v >> 5) & 31 < 32 && v & 31 < 32) by (bit_vector);
            }
            TransparencyDirective::ColorKey {
                blue: expand_channel5((v >> 10) & 31),
                green: expand_channel5((v >> 5) & 31),
                red: expand_channel5(v & 31),
            }
        },
    }
}

/// Whether the size-relative branch of the axis resolver stays inside `i32`.
/// This only constrains inputs on which the resolver would add `origin` and
/// the size.
pub open spec fn axis_add_in_range(origin: i32, size: Option<i32>) -> bool {
    (size is Some && size->0 != -1) ==> (i32::MIN <= origin + size->0 <= i32::MAX)
}

/// What the axis resolver returns: an explicit absolute bound wins when the
/// size carries the `-1` "unset" sentinel; otherwise a real size is taken
/// relative to the origin; otherwise the engine default is kept.
pub open spec fn spec_resolve_axis(origin: i32, size: Option<i32>, bound: Option<i32>) -> Option<
    i32,
> {
    if size is Some && size->0 == -1 && bound is Some && bound->0 != -1 {
        Some(bound->0)
    } else if size is Some && size->0 != -1 {
        Some((origin + size->0) as i32)
    } else {
        None
    }
}

/// Resolves one axis of the area rectangle from its size/bound pair.
/// `-1` in either field means "not specified".
pub fn resolve_axis(origin: i32, size: Option<i32>, bound: Option<i32>) -> (r: Option<i32>)
    requires
        axis_add_in_range(origin, size),
    ensures
        r == spec_resolve_axis(origin, size, bound),
{
    match (size, bound) {
        (Some(w), Some(b)) => {
            if w == -1 {
                if b != -1 {
                    Some(b)
                } else {
                    None
                }
            } else {
                Some(origin + w)
            }
        },
        (Some(w), None) => {
            if w != -1 {
                Some(origin + w)
            } else {
                None
            }
        },
        (None, _) => None,
    }
}

} // verus!
