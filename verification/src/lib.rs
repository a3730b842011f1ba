//! Configuration resolution for a raster-image-to-console-asset converter.
//!
//! The library takes a small set of high-level, mostly optional conversion
//! options (format, bit depth, transparency, tile and meta dimensions, crop
//! area, compression), validates them, and resolves them into a complete set
//! of low-level engine parameters. It also parses a textual key/value
//! configuration syntax into the same option set, reporting syntax errors at
//! the offending token. The actual pixel-encoding engine and the image
//! decoder are external collaborators driven by a thin unverified adapter.

mod builder;
mod parse;
mod resolve;
mod types;

pub use builder::BitmapBuilder;
pub use builder::OptionsModel;
pub use builder::lemma_resolution_deterministic;
pub use builder::lemma_tile_dimension_defaulting;
pub use builder::model_new;
pub use builder::record_bytes;
pub use parse::ParseError;
pub use parse::ParseErrorKind;
pub use parse::Token;
pub use parse::fits_i32;
pub use parse::fits_u8;
pub use parse::parse_config;
pub use parse::spec_apply_int_i32;
pub use parse::spec_apply_int_u8;
pub use parse::spec_apply_pair;
pub use parse::spec_parse;
pub use parse::spec_parse_pairs;
pub use resolve::AreaRect;
pub use resolve::BitDepthDirective;
pub use resolve::ResolvedParameters;
pub use resolve::TransparencyDirective;
pub use resolve::axis_add_in_range;
pub use resolve::expand_channel5;
pub use resolve::lemma_custom_bit_depth;
pub use resolve::resolve_axis;
pub use resolve::resolve_bit_depth;
pub use resolve::resolve_transparency;
pub use resolve::spec_bit_depth_valid;
pub use resolve::spec_expand5;
pub use resolve::spec_resolve_axis;
pub use resolve::spec_resolve_bit_depth;
pub use resolve::spec_resolve_transparency;
pub use types::Bitmap;
pub use types::BitmapSpec;
pub use types::BitDepth;
pub use types::Color;
pub use types::Compression;
pub use types::Error;
pub use types::GfxFormat;
pub use types::StaticBitmap;
pub use types::Transparency;
