//! The option vocabulary shared by the builder, the resolvers and the
//! configuration parser, together with the conversion result types.

use vstd::prelude::*;

verus! {

/// How the graphics stream is laid out: a flat bitmap or 8x8-style tiles.
/// The format decides the default tile dimensions during resolution.
#[derive(Clone, Copy, Debug, PartialEq, Eq, Structural)]
pub enum GfxFormat {
    Bitmap,
    Tile,
}

impl Default for GfxFormat {
    fn default() -> (r: Self)
        ensures
            r == GfxFormat::Bitmap,
    {
        GfxFormat::Bitmap
    }
}

/// Compression applied uniformly to the graphics, palette and map streams.
#[derive(Clone, Copy, Debug, PartialEq, Eq, Structural)]
pub enum Compression {
    Off,
    LZ77,
    Huffman,
    RLE,
    OffHeader,
}

impl Default for Compression {
    fn default() -> (r: Self)
        ensures
            r == Compression::Off,
    {
        Compression::Off
    }
}

/// A color key, either as an 8-bit triplet or as a 16-bit packed value with
/// three 5-bit channels (red in bits 0-4, green in 5-9, blue in 10-14).
#[derive(Clone, Copy, Debug, PartialEq, Eq, Structural)]
pub enum Color {
    RGB { r: u8, g: u8, b: u8 },
    GBR16(u16),
}

/// The transparency selection: disabled (alpha-bit graphics mode) or a
/// concrete color key.
#[derive(Clone, Copy, Debug, PartialEq, Eq, Structural)]
pub enum Transparency {
    Disabled,
    Color(Color),
}

impl Default for Transparency {
    /// When nothing was selected, a magenta color key is used.
    fn default() -> (r: Self)
        ensures
            r == Transparency::Color(Color::RGB { r: 0xFF, g: 0, b: 0xFF }),
    {
        Transparency::Color(Color::RGB { r: 0xFF, g: 0, b: 0xFF })
    }
}

/// The bit-depth override: a named engine preset or a raw bits-per-pixel
/// count. A custom count is only valid when it is a power of two below 32.
#[derive(Clone, Copy, Debug, PartialEq, Eq, Structural)]
pub enum BitDepth {
    A3I5,
    A5I3,
    FourByFour,
    Custom(u8),
}

/// Why a conversion failed. Every error is fatal to the conversion in
/// progress; there is no partial success.
#[derive(Clone, Debug, PartialEq, Eq)]
pub enum Error {
    /// The custom bit depth is not a power of two below 32.
    BadBitDepth(u8),
    /// The input path cannot be handed to the engine as a C string; the
    /// payload is the index of the first nul character in the path.
    BadInput(usize),
    /// The image decoder could not load the input path.
    InputNotFound(String),
    /// The engine ran but reported failure; it gives no finer reason.
    ConversionError(String),
}

/// The resolved facts a downstream consumer may want to introspect,
/// independent of the raw output bytes.
#[derive(Clone, Copy, Debug, PartialEq, Eq)]
pub struct BitmapSpec {
    pub bit_depth: Option<BitDepth>,
    pub format: GfxFormat,
    pub transparency: Transparency,
}

/// A finished conversion: four output records plus the resolved spec. A
/// record the engine declined to produce is an empty vector, never absent.
#[derive(Clone, Debug)]
pub struct Bitmap {
    pub gfx: Vec<u8>,
    pub palette: Vec<u8>,
    pub map: Vec<u8>,
    pub meta: Vec<u8>,
    pub spec: BitmapSpec,
}

/// A conversion result embedded as constant data in a compiled program.
#[derive(Clone, Debug)]
pub struct StaticBitmap {
    pub gfx: &'static [u8],
    pub palette: &'static [u8],
    pub map: &'static [u8],
    pub meta: &'static [u8],
    pub spec: BitmapSpec,
}

} // verus!
