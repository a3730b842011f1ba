//! The fluent, order-independent options accumulator and its resolution into
//! the complete engine parameter set.

use vstd::prelude::*;

use crate::resolve::AreaRect;
use crate::resolve::BitDepthDirective;
use crate::resolve::ResolvedParameters;
use crate::resolve::axis_add_in_range;
use crate::resolve::resolve_axis;
use crate::resolve::resolve_bit_depth;
use crate::resolve::resolve_transparency;
use crate::resolve::spec_resolve_axis;
use crate::resolve::spec_resolve_bit_depth;
use crate::resolve::spec_resolve_transparency;
use crate::types::BitDepth;
use crate::types::Bitmap;
use crate::types::BitmapSpec;
use crate::types::Color;
use crate::types::Compression;
use crate::types::Error;
use crate::types::GfxFormat;
use crate::types::Transparency;

verus! {

/// Accumulates conversion options. Every setter overwrites its own field and
/// nothing else, so later calls to the same option win and the order of
/// distinct options does not matter. Only `input` is required; every other
/// field is defaulted during resolution.
#[derive(Clone, Debug)]
pub struct BitmapBuilder {
    pub input: String,
    pub format: Option<GfxFormat>,
    pub tile_width: Option<u8>,
    pub tile_height: Option<u8>,
    pub meta_width: Option<u8>,
    pub meta_height: Option<u8>,
    pub bit_depth_override: Option<BitDepth>,
    pub transparency: Option<Transparency>,
    pub compression: Option<Compression>,
    pub area_left: Option<i32>,
    pub area_right: Option<i32>,
    pub area_width: Option<i32>,
    pub area_top: Option<i32>,
    pub area_bottom: Option<i32>,
    pub area_height: Option<i32>,
}

/// The abstract value of an option set: the same fields as `BitmapBuilder`
/// with the input path as a character sequence. Spec-level statements (most
/// importantly the configuration grammar) speak of this model.
pub struct OptionsModel {
    pub input: Seq<char>,
    pub format: Option<GfxFormat>,
    pub tile_width: Option<u8>,
    pub tile_height: Option<u8>,
    pub meta_width: Option<u8>,
    pub meta_height: Option<u8>,
    pub bit_depth_override: Option<BitDepth>,
    pub transparency: Option<Transparency>,
    pub compression: Option<Compression>,
    pub area_left: Option<i32>,
    pub area_right: Option<i32>,
    pub area_width: Option<i32>,
    pub area_top: Option<i32>,
    pub area_bottom: Option<i32>,
    pub area_height: Option<i32>,
}

/// The option set that holds only an input path.
pub open spec fn model_new(input: Seq<char>) -> OptionsModel {
    OptionsModel {
        input,
        format: None,
        tile_width: None,
        tile_height: None,
        meta_width: None,
        meta_height: None,
        bit_depth_override: None,
        transparency: None,
        compression: None,
        area_left: None,
        area_right: None,
        area_width: None,
        area_top: None,
        area_bottom: None,
        area_height: None,
    }
}

impl View for BitmapBuilder {
    type V = OptionsModel;

    open spec fn view(&self) -> OptionsModel {
        OptionsModel {
            input: self.input@,
            format: self.format,
            tile_width: self.tile_width,
            tile_height: self.tile_height,
            meta_width: self.meta_width,
            meta_height: self.meta_height,
            bit_depth_override: self.bit_depth_override,
            transparency: self.transparency,
            compression: self.compression,
            area_left: self.area_left,
            area_right: self.area_right,
            area_width: self.area_width,
            area_top: self.area_top,
            area_bottom: self.area_bottom,
            area_height: self.area_height,
        }
    }
}

/// The bytes of one engine output record: an absent (null) record reads as
/// the empty sequence, never as an error.
pub open spec fn record_bytes(rec: Option<Vec<u8>>) -> Seq<u8> {
    match rec {
        Some(v) => v@,
        None => Seq::empty(),
    }
}

impl BitmapBuilder {
    /// The format that resolution applies: the explicit choice, or `Bitmap`.
    pub open spec fn spec_format(self) -> GfxFormat {
        self.format.unwrap_or(GfxFormat::Bitmap)
    }

    /// The default for both tile dimensions, decided by the format:
    /// 1 for `Bitmap`, 8 for `Tile`.
    pub open spec fn spec_default_tile_dim(self) -> u8 {
        match self.spec_format() {
            GfxFormat::Bitmap => 1,
            GfxFormat::Tile => 8,
        }
    }

    /// The transparency that resolution applies: the explicit choice, or the
    /// magenta color key.
    pub open spec fn spec_transparency(self) -> Transparency {
        self.transparency.unwrap_or(Transparency::Color(Color::RGB { r: 0xFF, g: 0, b: 0xFF }))
    }

    /// The spec value retained beside the conversion output.
    pub open spec fn spec_resolved_spec(self) -> BitmapSpec {
        BitmapSpec {
            bit_depth: self.bit_depth_override,
            format: self.spec_format(),
            transparency: self.spec_transparency(),
        }
    }

    /// The fully resolved area rectangle: left/top default to 0, right and
    /// bottom come from the two size/bound pairs.
    pub open spec fn spec_area(self) -> AreaRect {
        let left = self.area_left.unwrap_or(0);
        let top = self.area_top.unwrap_or(0);
        AreaRect {
            left,
            top,
            right: spec_resolve_axis(left, self.area_width, self.area_right),
            bottom: spec_resolve_axis(top, self.area_height, self.area_bottom),
        }
    }

    /// Whether the bit-depth override (if any) passes validation.
    pub open spec fn spec_bit_depth_ok(self) -> bool {
        match self.bit_depth_override {
            Some(d) => spec_resolve_bit_depth(d) is Ok,
            None => true,
        }
    }

    /// The parameter set produced when the bit-depth directive is `bit_depth`.
    pub open spec fn spec_params_with(self, bit_depth: Option<BitDepthDirective>)
        -> ResolvedParameters {
        ResolvedParameters {
            tile_width: self.tile_width.unwrap_or(self.spec_default_tile_dim()),
            tile_height: self.tile_height.unwrap_or(self.spec_default_tile_dim()),
            meta_width: self.meta_width.unwrap_or(1),
            meta_height: self.meta_height.unwrap_or(1),
            bit_depth,
            area: self.spec_area(),
            transparency: spec_resolve_transparency(self.spec_transparency()),
            compression: self.compression,
        }
    }

    /// What resolution returns for every option set: the bit-depth error when
    /// the override is invalid, otherwise the complete, defaulted parameters.
    pub open spec fn spec_resolve(self) -> Result<ResolvedParameters, Error> {
        match self.bit_depth_override {
            Some(d) => match spec_resolve_bit_depth(d) {
                Ok(dir) => Ok(self.spec_params_with(Some(dir))),
                Err(e) => Err(e),
            },
            None => Ok(self.spec_params_with(None)),
        }
    }

    /// The machine limit on resolution: when an axis size is combined with
    /// its origin, the sum must fit in `i32`. Only option sets that reach the
    /// area step (that is, whose bit depth passes) are constrained.
    pub open spec fn resolve_in_range(self) -> bool {
        self.spec_bit_depth_ok() ==> {
            &&& axis_add_in_range(self.area_left.unwrap_or(0), self.area_width)
            &&& axis_add_in_range(self.area_top.unwrap_or(0), self.area_height)
        }
    }

    /// Starts an option set for one input path; every other option is unset.
    pub fn new(input: &str) -> (r: BitmapBuilder)
        ensures
            r.input@ == input@,
            r.format is None,
            r.tile_width is None,
            r.tile_height is None,
            r.meta_width is None,
            r.meta_height is None,
            r.bit_depth_override is None,
            r.transparency is None,
            r.compression is None,
            r.area_left is None,
            r.area_right is None,
            r.area_width is None,
            r.area_top is None,
            r.area_bottom is None,
            r.area_height is None,
    {
        BitmapBuilder {
            input: input.to_owned(),
            format: None,
            tile_width: None,
            tile_height: None,
            meta_width: None,
            meta_height: None,
            bit_depth_override: None,
            transparency: None,
            compression: None,
            area_left: None,
            area_right: None,
            area_width: None,
            area_top: None,
            area_bottom: None,
            area_height: None,
        }
    }

    pub fn with_format(self, format: GfxFormat) -> (r: Self)
        ensures
            r == (BitmapBuilder { format: Some(format), ..self }),
    {
        BitmapBuilder { format: Some(format), ..self }
    }

    pub fn with_tile_width(self, tile_width: u8) -> (r: Self)
        ensures
            r == (BitmapBuilder { tile_width: Some(tile_width), ..self }),
    {
        BitmapBuilder { tile_width: Some(tile_width), ..self }
    }

    pub fn with_tile_height(self, tile_height: u8) -> (r: Self)
        ensures
            r == (BitmapBuilder { tile_height: Some(tile_height), ..self }),
    {
        BitmapBuilder { tile_height: Some(tile_height), ..self }
    }

    pub fn with_meta_width(self, meta_width: u8) -> (r: Self)
        ensures
            r == (BitmapBuilder { meta_width: Some(meta_width), ..self }),
    {
        BitmapBuilder { meta_width: Some(meta_width), ..self }
    }

    pub fn with_meta_height(self, meta_height: u8) -> (r: Self)
        ensures
            r == (BitmapBuilder { meta_height: Some(meta_height), ..self }),
    {
        BitmapBuilder { meta_height: Some(meta_height), ..self }
    }

    pub fn with_bit_depth_override(self, bit_depth: BitDepth) -> (r: Self)
        ensures
            r == (BitmapBuilder { bit_depth_override: Some(bit_depth), ..self }),
    {
        BitmapBuilder { bit_depth_override: Some(bit_depth), ..self }
    }

    pub fn with_transparency(self, transparency: Transparency) -> (r: Self)
        ensures
            r == (BitmapBuilder { transparency: Some(transparency), ..self }),
    {
        BitmapBuilder { transparency: Some(transparency), ..self }
    }

    pub fn with_compression(self, compression: Compression) -> (r: Self)
        ensures
            r == (BitmapBuilder { compression: Some(compression), ..self }),
    {
        BitmapBuilder { compression: Some(compression), ..self }
    }

    pub fn with_area_left(self, area_left: i32) -> (r: Self)
        ensures
            r == (BitmapBuilder { area_left: Some(area_left), ..self }),
    {
        BitmapBuilder { area_left: Some(area_left), ..self }
    }

    pub fn with_area_right(self, area_right: i32) -> (r: Self)
        ensures
            r == (BitmapBuilder { area_right: Some(area_right), ..self }),
    {
        BitmapBuilder { area_right: Some(area_right), ..self }
    }

    pub fn with_area_width(self, area_width: i32) -> (r: Self)
        ensures
            r == (BitmapBuilder { area_width: Some(area_width), ..self }),
    {
        BitmapBuilder { area_width: Some(area_width), ..self }
    }

    pub fn with_area_top(self, area_top: i32) -> (r: Self)
        ensures
            r == (BitmapBuilder { area_top: Some(area_top), ..self }),
    {
        BitmapBuilder { area_top: Some(area_top), ..self }
    }

    pub fn with_area_bottom(self, area_bottom: i32) -> (r: Self)
        ensures
            r == (BitmapBuilder { area_bottom: Some(area_bottom), ..self }),
    {
        BitmapBuilder { area_bottom: Some(area_bottom), ..self }
    }

    pub fn with_area_height(self, area_height: i32) -> (r: Self)
        ensures
            r == (BitmapBuilder { area_height: Some(area_height), ..self }),
    {
        BitmapBuilder { area_height: Some(area_height), ..self }
    }

    /// Resolves the accumulated options into the complete engine parameter
    /// set, validating the bit depth and defaulting everything unset.
    pub fn resolve(&self) -> (r: Result<ResolvedParameters, Error>)
        requires
            self.resolve_in_range(),
        ensures
            r == self.spec_resolve(),
    {
        let bit_depth: Option<BitDepthDirective> = match self.bit_depth_override {
            Some(d) => match resolve_bit_depth(d) {
                Ok(dir) => Some(dir),
                Err(e) => {
                    return Err(e);
                },
            },
            None => None,
        };

        let format = self.format.unwrap_or(GfxFormat::Bitmap);
        let default_dim: u8 = match format {
            GfxFormat::Bitmap => 1,
            GfxFormat::Tile => 8,
        };

        let left = self.area_left.unwrap_or(0);
        let top = self.area_top.unwrap_or(0);
        let area = AreaRect {
            left,
            top,
            right: resolve_axis(left, self.area_width, self.area_right),
            bottom: resolve_axis(top, self.area_height, self.area_bottom),
        };

        let transparency = resolve_transparency(
            self.transparency.unwrap_or(
                Transparency::Color(Color::RGB { r: 0xFF, g: 0, b: 0xFF }),
            ),
        );

        Ok(
            ResolvedParameters {
                tile_width: self.tile_width.unwrap_or(default_dim),
                tile_height: self.tile_height.unwrap_or(default_dim),
                meta_width: self.meta_width.unwrap_or(1),
                meta_height: self.meta_height.unwrap_or(1),
                bit_depth,
                area,
                transparency,
                compression: self.compression,
            },
        )
    }

    /// Checks that the input path can be handed to the engine as a C string:
    /// it must contain no nul character. On failure the error carries the
    /// index of the first nul.
    pub fn check_input(&self) -> (r: Result<(), Error>)
        ensures
            r is Ok <==> (forall|i: int|
                0 <= i < self.input@.len() ==> self.input@[i] != '\0'),
            r is Err ==> {
                &&& r->Err_0 is BadInput
                &&& r->Err_0->BadInput_0 < self.input@.len()
                &&& self.input@[r->Err_0->BadInput_0 as int] == '\0'
                &&& (forall|j: int|
                    0 <= j < r->Err_0->BadInput_0 ==> self.input@[j] != '\0')
            },
    {
        let s = self.input.as_str();
        let n = s.unicode_len();
        let mut i: usize = 0;
        while i < n
            invariant
                s@ == self.input@,
                n == self.input@.len(),
                i <= n,
                forall|j: int| 0 <= j < i ==> self.input@[j] != '\0',
            decreases n - i,
        {
            if s.get_char(i) == '\0' {
                return Err(Error::BadInput(i));
            }
            i = i + 1;
        }
        Ok(())
    }

    /// The resolved facts retained beside the output bytes.
    pub fn resolved_spec(&self) -> (r: BitmapSpec)
        ensures
            r == self.spec_resolved_spec(),
    {
        BitmapSpec {
            bit_depth: self.bit_depth_override,
            format: self.format.unwrap_or(GfxFormat::Bitmap),
            transparency: self.transparency.unwrap_or(
                Transparency::Color(Color::RGB { r: 0xFF, g: 0, b: 0xFF }),
            ),
        }
    }

    /// Maps the image decoder's outcome into the error taxonomy: a decoder
    /// that produced no image means the input could not be found.
    pub fn decode_outcome(&self, loaded: bool) -> (r: Result<(), Error>)
        ensures
            loaded <==> r is Ok,
            !loaded ==> r->Err_0 is InputNotFound && r->Err_0->InputNotFound_0@ == self.input@,
    {
        if loaded {
            Ok(())
        } else {
            Err(Error::InputNotFound(self.input.clone()))
        }
    }

    /// Normalizes what came back from the engine: on failure the conversion
    /// error names the input; on success each absent record becomes an empty
    /// vector and the resolved spec is attached.
    pub fn finish(
        &self,
        engine_ok: bool,
        gfx: Option<Vec<u8>>,
        palette: Option<Vec<u8>>,
        map: Option<Vec<u8>>,
        meta: Option<Vec<u8>>,
    ) -> (r: Result<Bitmap, Error>)
        ensures
            engine_ok <==> r is Ok,
            engine_ok ==> {
                &&& r->Ok_0.gfx@ == record_bytes(gfx)
                &&& r->Ok_0.palette@ == record_bytes(palette)
                &&& r->Ok_0.map@ == record_bytes(map)
                &&& r->Ok_0.meta@ == record_bytes(meta)
                &&& r->Ok_0.spec == self.spec_resolved_spec()
            },
            !engine_ok ==> r->Err_0 is ConversionError && r->Err_0->ConversionError_0@
                == self.input@,
    {
        if engine_ok {
            Ok(
                Bitmap {
                    gfx: record_or_empty(gfx),
                    palette: record_or_empty(palette),
                    map: record_or_empty(map),
                    meta: record_or_empty(meta),
                    spec: self.resolved_spec(),
                },
            )
        } else {
            Err(Error::ConversionError(self.input.clone()))
        }
    }
}

/// Law: tile-dimension defaulting. The format alone decides the default
/// (1 by 1 for `Bitmap`, 8 by 8 for `Tile`, and an unset format means
/// `Bitmap`), and an explicitly set tile dimension always overrides the
/// format default.
pub proof fn lemma_tile_dimension_defaulting(b: BitmapBuilder)
    requires
        b.spec_resolve() is Ok,
    ensures
        b.format is None ==> b.spec_format() == GfxFormat::Bitmap,
        b.tile_width is Some ==> b.spec_resolve()->Ok_0.tile_width == b.tile_width->0,
        b.tile_height is Some ==> b.spec_resolve()->Ok_0.tile_height == b.tile_height->0,
        b.tile_width is None && b.spec_format() == GfxFormat::Bitmap
            ==> b.spec_resolve()->Ok_0.tile_width == 1,
        b.tile_width is None && b.spec_format() == GfxFormat::Tile
            ==> b.spec_resolve()->Ok_0.tile_width == 8,
        b.tile_height is None && b.spec_format() == GfxFormat::Bitmap
            ==> b.spec_resolve()->Ok_0.tile_height == 1,
        b.tile_height is None && b.spec_format() == GfxFormat::Tile
            ==> b.spec_resolve()->Ok_0.tile_height == 8,
{
}

/// Law: resolution is a pure function of the option set; two equal option
/// sets resolve to the same parameters and the same retained spec, so the
/// deterministic part of a conversion cannot differ between two runs on the
/// same options. (What the external engine then produces from those
/// parameters is outside this library.)
pub proof fn lemma_resolution_deterministic(a: BitmapBuilder, b: BitmapBuilder)
    requires
        a == b,
    ensures
        a.spec_resolve() == b.spec_resolve(),
        a.spec_resolved_spec() == b.spec_resolved_spec(),
{
}

/// Turns an absent engine record into the empty byte vector.
fn record_or_empty(rec: Option<Vec<u8>>) -> (r: Vec<u8>)
    ensures
        r@ == record_bytes(rec),
{
    match rec {
        Some(v) => v,
        None => Vec::new(),
    }
}

} // verus!

