//! The configuration-syntax parser: a token sequence of the shape
//! `"<path>" [ , key = value ]*` becomes an option set, or a syntax error
//! that names the offending token.
//!
//! The grammar is defined by the spec functions `spec_parse`,
//! `spec_parse_pairs` and `spec_apply_pair`; the executable parser returns
//! exactly what they say for every token sequence.

use vstd::prelude::*;

use crate::builder::BitmapBuilder;
use crate::builder::OptionsModel;
use crate::types::BitDepth;
use crate::types::Compression;
use crate::types::GfxFormat;
use crate::types::Transparency;

verus! {

/// One token of the configuration syntax, as the host front end hands it
/// over. `Other` stands for any token shape the grammar never accepts.
#[derive(Clone, Debug, PartialEq, Eq)]
pub enum Token {
    /// A string literal's value.
    Str(String),
    /// An identifier-like atom.
    Word(String),
    /// An integer literal, sign included.
    Int(i64),
    Comma,
    Eq,
    Other,
}

/// What went wrong, attached to the index of the offending token. An index
/// equal to the token count means the input ended too early.
#[derive(Clone, Copy, Debug, PartialEq, Eq, Structural)]
pub enum ParseErrorKind {
    /// The first token must be a string literal naming the input path.
    ExpectedPath,
    /// A comma must follow the input path when anything follows at all.
    ExpectedCommaAfterInput,
    /// A key must be an identifier.
    ExpectedKey,
    /// A key must be followed by `=`.
    ExpectedEq,
    /// A comma must separate key/value pairs.
    ExpectedComma,
    /// This key takes an identifier or an integer literal.
    ExpectedValue,
    /// This key takes an identifier.
    ExpectedIdent,
    /// This key takes an integer literal.
    ExpectedInt,
    /// The key is not part of the configuration vocabulary.
    UnknownKey,
    UnknownTransparency,
    UnknownBitDepth,
    UnknownFormat,
    UnknownCompression,
    /// A literal-color transparency is not part of the syntax; only the
    /// identifier `Disabled` is accepted.
    UnsupportedTransparencyColor,
    /// The integer literal does not fit the key's value range.
    IntOutOfRange,
}

/// A syntax error at one token.
#[derive(Clone, Copy, Debug, PartialEq, Eq, Structural)]
pub struct ParseError {
    /// Index of the offending token; the token count itself when the input
    /// ended too early.
    pub at: usize,
    pub kind: ParseErrorKind,
}

impl ParseErrorKind {
    /// The diagnostic text for this error.
    pub fn message(&self) -> (r: &'static str)
        ensures
            *self is ExpectedPath ==> r@ == "Expected string literal"@,
            *self is ExpectedCommaAfterInput ==> r@ == "Expected comma after input"@,
            *self is ExpectedKey ==> r@ == "Expected identifier"@,
            *self is ExpectedEq ==> r@ == "Expected `=`"@,
            *self is ExpectedComma ==> r@ == "Expected comma"@,
            *self is ExpectedValue ==> r@ == "Expected identifier or literal"@,
            *self is ExpectedIdent ==> r@ == "Expected identifier"@,
            *self is ExpectedInt ==> r@ == "Expected integer literal"@,
            *self is UnknownKey ==> r@ == "Unknown attribute"@,
            *self is UnknownTransparency ==> r@ == "Unknown transparency"@,
            *self is UnknownBitDepth ==> r@ == "Unknown bit depth"@,
            *self is UnknownFormat ==> r@ == "Unknown format"@,
            *self is UnknownCompression ==> r@ == "Unknown compression"@,
            *self is UnsupportedTransparencyColor ==> r@
                == "Literal-color transparency is not supported"@,
            *self is IntOutOfRange ==> r@ == "Integer literal out of range"@,
    {
        match self {
            ParseErrorKind::ExpectedPath => "Expected string literal",
            ParseErrorKind::ExpectedCommaAfterInput => "Expected comma after input",
            ParseErrorKind::ExpectedKey => "Expected identifier",
            ParseErrorKind::ExpectedEq => "Expected `=`",
            ParseErrorKind::ExpectedComma => "Expected comma",
            ParseErrorKind::ExpectedValue => "Expected identifier or literal",
            ParseErrorKind::ExpectedIdent => "Expected identifier",
            ParseErrorKind::ExpectedInt => "Expected integer literal",
            ParseErrorKind::UnknownKey => "Unknown attribute",
            ParseErrorKind::UnknownTransparency => "Unknown transparency",
            ParseErrorKind::UnknownBitDepth => "Unknown bit depth",
            ParseErrorKind::UnknownFormat => "Unknown format",
            ParseErrorKind::UnknownCompression => "Unknown compression",
            ParseErrorKind::UnsupportedTransparencyColor => "Literal-color transparency is not supported",
            ParseErrorKind::IntOutOfRange => "Integer literal out of range",
        }
    }
}

/// Whether an integer literal fits a `u8`-valued key.
pub open spec fn fits_u8(x: i64) -> bool {
    0 <= x <= 255
}

/// Whether an integer literal fits an `i32`-valued key.
pub open spec fn fits_i32(x: i64) -> bool {
    i32::MIN <= x <= i32::MAX
}

/// The meaning of one `key = value` pair: the model with the key's field set,
/// or the error the pair earns. The key sits at token index `k`, its value at
/// `k + 2`.
pub open spec fn spec_apply_pair(m: OptionsModel, tokens: Seq<Token>, k: int) -> Result<
    OptionsModel,
    ParseError,
>
    recommends
        0 <= k,
        k + 1 < tokens.len(),
        tokens[k] is Word,
{
    let key = tokens[k]->Word_0@;
    let v = k + 2;
    if key == "transparency"@ {
        if v >= tokens.len() {
            Err(ParseError { at: v as usize, kind: ParseErrorKind::ExpectedValue })
        } else {
            match tokens[v] {
                Token::Word(w) => if w@ == "Disabled"@ {
                    Ok(OptionsModel { transparency: Some(Transparency::Disabled), ..m })
                } else {
                    Err(ParseError { at: v as usize, kind: ParseErrorKind::UnknownTransparency })
                },
                Token::Int(_) => Err(
                    ParseError {
                        at: v as usize,
                        kind: ParseErrorKind::UnsupportedTransparencyColor,
                    },
                ),
                _ => Err(ParseError { at: v as usize, kind: ParseErrorKind::ExpectedValue }),
            }
        }
    } else if key == "bit_depth"@ {
        if v >= tokens.len() {
            Err(ParseError { at: v as usize, kind: ParseErrorKind::ExpectedValue })
        } else {
            match tokens[v] {
                Token::Word(w) => if w@ == "A3I5"@ {
                    Ok(OptionsModel { bit_depth_override: Some(BitDepth::A3I5), ..m })
                } else if w@ == "A5I3"@ {
                    Ok(OptionsModel { bit_depth_override: Some(BitDepth::A5I3), ..m })
                } else if w@ == "FourByFour"@ || w@ == "4x4"@ {
                    Ok(OptionsModel { bit_depth_override: Some(BitDepth::FourByFour), ..m })
                } else {
                    Err(ParseError { at: v as usize, kind: ParseErrorKind::UnknownBitDepth })
                },
                Token::Int(x) => if fits_u8(x) {
                    Ok(OptionsModel { bit_depth_override: Some(BitDepth::Custom(x as u8)), ..m })
                } else {
                    Err(ParseError { at: v as usize, kind: ParseErrorKind::IntOutOfRange })
                },
                _ => Err(ParseError { at: v as usize, kind: ParseErrorKind::ExpectedValue }),
            }
        }
    } else if key == "format"@ {
        if v >= tokens.len() {
            Err(ParseError { at: v as usize, kind: ParseErrorKind::ExpectedIdent })
        } else {
            match tokens[v] {
                Token::Word(w) => if w@ == "Bitmap"@ {
                    Ok(OptionsModel { format: Some(GfxFormat::Bitmap), ..m })
                } else if w@ == "Tile"@ {
                    Ok(OptionsModel { format: Some(GfxFormat::Tile), ..m })
                } else {
                    Err(ParseError { at: v as usize, kind: ParseErrorKind::UnknownFormat })
                },
                _ => Err(ParseError { at: v as usize, kind: ParseErrorKind::ExpectedIdent }),
            }
        }
    } else if key == "compression"@ {
        if v >= tokens.len() {
            Err(ParseError { at: v as usize, kind: ParseErrorKind::ExpectedIdent })
        } else {
            match tokens[v] {
                Token::Word(w) => if w@ == "Off"@ {
                    Ok(OptionsModel { compression: Some(Compression::Off), ..m })
                } else if w@ == "LZ77"@ {
                    Ok(OptionsModel { compression: Some(Compression::LZ77), ..m })
                } else if w@ == "Huffman"@ {
                    Ok(OptionsModel { compression: Some(Compression::Huffman), ..m })
                } else if w@ == "RLE"@ {
                    Ok(OptionsModel { compression: Some(Compression::RLE), ..m })
                } else if w@ == "OffHeader"@ {
                    Ok(OptionsModel { compression: Some(Compression::OffHeader), ..m })
                } else {
                    Err(ParseError { at: v as usize, kind: ParseErrorKind::UnknownCompression })
                },
                _ => Err(ParseError { at: v as usize, kind: ParseErrorKind::ExpectedIdent }),
            }
        }
    } else if key == "tile_width"@ {
        spec_apply_int_u8(m, tokens, v, 0)
    } else if key == "tile_height"@ {
        spec_apply_int_u8(m, tokens, v, 1)
    } else if key == "meta_width"@ {
        spec_apply_int_u8(m, tokens, v, 2)
    } else if key == "meta_height"@ {
        spec_apply_int_u8(m, tokens, v, 3)
    } else if key == "area_left"@ {
        spec_apply_int_i32(m, tokens, v, 0)
    } else if key == "area_right"@ {
        spec_apply_int_i32(m, tokens, v, 1)
    } else if key == "area_width"@ {
        spec_apply_int_i32(m, tokens, v, 2)
    } else if key == "area_top"@ {
        spec_apply_int_i32(m, tokens, v, 3)
    } else if key == "area_bottom"@ {
        spec_apply_int_i32(m, tokens, v, 4)
    } else if key == "area_height"@ {
        spec_apply_int_i32(m, tokens, v, 5)
    } else {
        Err(ParseError { at: k as usize, kind: ParseErrorKind::UnknownKey })
    }
}

/// The meaning of a `u8`-valued pair; `field` selects which dimension is set
/// (0 tile width, 1 tile height, 2 meta width, 3 meta height).
pub open spec fn spec_apply_int_u8(m: OptionsModel, tokens: Seq<Token>, v: int, field: int)
    -> Result<OptionsModel, ParseError> {
    if v >= tokens.len() {
        Err(ParseError { at: v as usize, kind: ParseErrorKind::ExpectedInt })
    } else {
        match tokens[v] {
            Token::Int(x) => if fits_u8(x) {
                Ok(
                    if field == 0 {
                        OptionsModel { tile_width: Some(x as u8), ..m }
                    } else if field == 1 {
                        OptionsModel { tile_height: Some(x as u8), ..m }
                    } else if field == 2 {
                        OptionsModel { meta_width: Some(x as u8), ..m }
                    } else {
                        OptionsModel { meta_height: Some(x as u8), ..m }
                    },
                )
            } else {
                Err(ParseError { at: v as usize, kind: ParseErrorKind::IntOutOfRange })
            },
            _ => Err(ParseError { at: v as usize, kind: ParseErrorKind::ExpectedInt }),
        }
    }
}

/// The meaning of an `i32`-valued pair; `field` selects which area
/// coordinate is set (0 left, 1 right, 2 width, 3 top, 4 bottom, 5 height).
pub open spec fn spec_apply_int_i32(m: OptionsModel, tokens: Seq<Token>, v: int, field: int)
    -> Result<OptionsModel, ParseError> {
    if v >= tokens.len() {
        Err(ParseError { at: v as usize, kind: ParseErrorKind::ExpectedInt })
    } else {
        match tokens[v] {
            Token::Int(x) => if fits_i32(x) {
                Ok(
                    if field == 0 {
                        OptionsModel { area_left: Some(x as i32), ..m }
                    } else if field == 1 {
                        OptionsModel { area_right: Some(x as i32), ..m }
                    } else if field == 2 {
                        OptionsModel { area_width: Some(x as i32), ..m }
                    } else if field == 3 {
                        OptionsModel { area_top: Some(x as i32), ..m }
                    } else if field == 4 {
                        OptionsModel { area_bottom: Some(x as i32), ..m }
                    } else {
                        OptionsModel { area_height: Some(x as i32), ..m }
                    },
                )
            } else {
                Err(ParseError { at: v as usize, kind: ParseErrorKind::IntOutOfRange })
            },
            _ => Err(ParseError { at: v as usize, kind: ParseErrorKind::ExpectedInt }),
        }
    }
}

/// The meaning of the pair list from token index `i` on: each pair sets one
/// field (later pairs win), pairs are comma-separated with an optional
/// trailing comma.
pub open spec fn spec_parse_pairs(tokens: Seq<Token>, i: int, m: OptionsModel) -> Result<
    OptionsModel,
    ParseError,
>
    decreases tokens.len() - i,
{
    if i >= tokens.len() {
        Ok(m)
    } else if !(tokens[i] is Word) {
        Err(ParseError { at: i as usize, kind: ParseErrorKind::ExpectedKey })
    } else if i + 1 >= tokens.len() || !(tokens[i + 1] is Eq) {
        Err(ParseError { at: (i + 1) as usize, kind: ParseErrorKind::ExpectedEq })
    } else {
        match spec_apply_pair(m, tokens, i) {
            Err(e) => Err(e),
            Ok(m2) => {
                let j = i + 3;
                if j >= tokens.len() {
                    Ok(m2)
                } else if tokens[j] is Comma {
                    spec_parse_pairs(tokens, j + 1, m2)
                } else {
                    Err(ParseError { at: j as usize, kind: ParseErrorKind::ExpectedComma })
                }
            },
        }
    }
}

/// The meaning of a whole configuration: the input path alone selects the
/// documented defaults (transparency disabled, 16-bit custom depth, bitmap
/// format); otherwise a comma and the pair list follow.
pub open spec fn spec_parse(tokens: Seq<Token>) -> Result<OptionsModel, ParseError> {
    if tokens.len() == 0 || !(tokens[0] is Str) {
        Err(ParseError { at: 0, kind: ParseErrorKind::ExpectedPath })
    } else {
        let m = crate::builder::model_new(tokens[0]->Str_0@);
        if tokens.len() == 1 {
            Ok(
                OptionsModel {
                    transparency: Some(Transparency::Disabled),
                    bit_depth_override: Some(BitDepth::Custom(16)),
                    format: Some(GfxFormat::Bitmap),
                    ..m
                },
            )
        } else if !(tokens[1] is Comma) {
            Err(ParseError { at: 1, kind: ParseErrorKind::ExpectedCommaAfterInput })
        } else {
            spec_parse_pairs(tokens, 2, m)
        }
    }
}

/// Exact string comparison against a keyword.
fn str_eq(a: &String, b: &str) -> (r: bool)
    ensures
        r == (a@ == b@),
{
    let bs = b.to_owned();
    *a == bs
}

/// Applies one `key = value` pair to the option set, exactly as the grammar
/// says. The key sits at token index `k`, its value at `k + 2`.
fn apply_pair(b: BitmapBuilder, tokens: &Vec<Token>, k: usize) -> (r: Result<
    BitmapBuilder,
    ParseError,
>)
    requires
        k + 1 < tokens@.len(),
        tokens@[k as int] is Word,
    ensures
        match r {
            Ok(b2) => spec_apply_pair(b@, tokens@, k as int) == Ok::<OptionsModel, ParseError>(
                b2@,
            ),
            Err(e) => spec_apply_pair(b@, tokens@, k as int) == Err::<OptionsModel, ParseError>(e),
        },
{
    let n = tokens.len();
    let key: &String = match &tokens[k] {
        Token::Word(w) => w,
        _ => {
            return Err(ParseError { at: k, kind: ParseErrorKind::ExpectedKey });
        },
    };
    let v = k + 2;
    if str_eq(key, "transparency") {
        if v >= n {
            return Err(ParseError { at: v, kind: ParseErrorKind::ExpectedValue });
        }
        match &tokens[v] {
            Token::Word(w) => {
                if str_eq(w, "Disabled") {
                    Ok(b.with_transparency(Transparency::Disabled))
                } else {
                    Err(ParseError { at: v, kind: ParseErrorKind::UnknownTransparency })
                }
            },
            Token::Int(_) => Err(
                ParseError { at: v, kind: ParseErrorKind::UnsupportedTransparencyColor },
            ),
            _ => Err(ParseError { at: v, kind: ParseErrorKind::ExpectedValue }),
        }
    } else if str_eq(key, "bit_depth") {
        if v >= n {
            return Err(ParseError { at: v, kind: ParseErrorKind::ExpectedValue });
        }
        match &tokens[v] {
            Token::Word(w) => {
                if str_eq(w, "A3I5") {
                    Ok(b.with_bit_depth_override(BitDepth::A3I5))
                } else if str_eq(w, "A5I3") {
                    Ok(b.with_bit_depth_override(BitDepth::A5I3))
                } else if str_eq(w, "FourByFour") {
                    Ok(b.with_bit_depth_override(BitDepth::FourByFour))
                } else if str_eq(w, "4x4") {
                    Ok(b.with_bit_depth_override(BitDepth::FourByFour))
                } else {
                    Err(ParseError { at: v, kind: ParseErrorKind::UnknownBitDepth })
                }
            },
            Token::Int(x) => {
                if 0 <= *x && *x <= 255 {
                    Ok(b.with_bit_depth_override(BitDepth::Custom(*x as u8)))
                } else {
                    Err(ParseError { at: v, kind: ParseErrorKind::IntOutOfRange })
                }
            },
            _ => Err(ParseError { at: v, kind: ParseErrorKind::ExpectedValue }),
        }
    } else if str_eq(key, "format") {
        if v >= n {
            return Err(ParseError { at: v, kind: ParseErrorKind::ExpectedIdent });
        }
        match &tokens[v] {
            Token::Word(w) => {
                if str_eq(w, "Bitmap") {
                    Ok(b.with_format(GfxFormat::Bitmap))
                } else if str_eq(w, "Tile") {
                    Ok(b.with_format(GfxFormat::Tile))
                } else {
                    Err(ParseError { at: v, kind: ParseErrorKind::UnknownFormat })
                }
            },
            _ => Err(ParseError { at: v, kind: ParseErrorKind::ExpectedIdent }),
        }
    } else if str_eq(key, "compression") {
        if v >= n {
            return Err(ParseError { at: v, kind: ParseErrorKind::ExpectedIdent });
        }
        match &tokens[v] {
            Token::Word(w) => {
                if str_eq(w, "Off") {
                    Ok(b.with_compression(Compression::Off))
                } else if str_eq(w, "LZ77") {
                    Ok(b.with_compression(Compression::LZ77))
                } else if str_eq(w, "Huffman") {
                    Ok(b.with_compression(Compression::Huffman))
                } else if str_eq(w, "RLE") {
                    Ok(b.with_compression(Compression::RLE))
                } else if str_eq(w, "OffHeader") {
                    Ok(b.with_compression(Compression::OffHeader))
                } else {
                    Err(ParseError { at: v, kind: ParseErrorKind::UnknownCompression })
                }
            },
            _ => Err(ParseError { at: v, kind: ParseErrorKind::ExpectedIdent }),
        }
    } else if str_eq(key, "tile_width") {
        match take_u8(tokens, v) {
            Ok(x) => Ok(b.with_tile_width(x)),
            Err(e) => Err(e),
        }
    } else if str_eq(key, "tile_height") {
        match take_u8(tokens, v) {
            Ok(x) => Ok(b.with_tile_height(x)),
            Err(e) => Err(e),
        }
    } else if str_eq(key, "meta_width") {
        match take_u8(tokens, v) {
            Ok(x) => Ok(b.with_meta_width(x)),
            Err(e) => Err(e),
        }
    } else if str_eq(key, "meta_height") {
        match take_u8(tokens, v) {
            Ok(x) => Ok(b.with_meta_height(x)),
            Err(e) => Err(e),
        }
    } else if str_eq(key, "area_left") {
        match take_i32(tokens, v) {
            Ok(x) => Ok(b.with_area_left(x)),
            Err(e) => Err(e),
        }
    } else if str_eq(key, "area_right") {
        match take_i32(tokens, v) {
            Ok(x) => Ok(b.with_area_right(x)),
            Err(e) => Err(e),
        }
    } else if str_eq(key, "area_width") {
        match take_i32(tokens, v) {
            Ok(x) => Ok(b.with_area_width(x)),
            Err(e) => Err(e),
        }
    } else if str_eq(key, "area_top") {
        match take_i32(tokens, v) {
            Ok(x) => Ok(b.with_area_top(x)),
            Err(e) => Err(e),
        }
    } else if str_eq(key, "area_bottom") {
        match take_i32(tokens, v) {
            Ok(x) => Ok(b.with_area_bottom(x)),
            Err(e) => Err(e),
        }
    } else if str_eq(key, "area_height") {
        match take_i32(tokens, v) {
            Ok(x) => Ok(b.with_area_height(x)),
            Err(e) => Err(e),
        }
    } else {
        Err(ParseError { at: k, kind: ParseErrorKind::UnknownKey })
    }
}

/// Reads the value token of a `u8`-valued key.
fn take_u8(tokens: &Vec<Token>, v: usize) -> (r: Result<u8, ParseError>)
    requires
        v <= tokens@.len(),
    ensures
        match r {
            Ok(x) => v < tokens@.len() && (tokens@[v as int] matches Token::Int(y) && fits_u8(y)
                && x == y as u8),
            Err(e) => e.at == v && if v < tokens@.len() {
                match tokens@[v as int] {
                    Token::Int(y) => !fits_u8(y) && e.kind == ParseErrorKind::IntOutOfRange,
                    _ => e.kind == ParseErrorKind::ExpectedInt,
                }
            } else {
                e.kind == ParseErrorKind::ExpectedInt
            },
        },
{
    if v >= tokens.len() {
        return Err(ParseError { at: v, kind: ParseErrorKind::ExpectedInt });
    }
    match &tokens[v] {
        Token::Int(x) => {
            if 0 <= *x && *x <= 255 {
                Ok(*x as u8)
            } else {
                Err(ParseError { at: v, kind: ParseErrorKind::IntOutOfRange })
            }
        },
        _ => Err(ParseError { at: v, kind: ParseErrorKind::ExpectedInt }),
    }
}

/// Reads the value token of an `i32`-valued key.
fn take_i32(tokens: &Vec<Token>, v: usize) -> (r: Result<i32, ParseError>)
    requires
        v <= tokens@.len(),
    ensures
        match r {
            Ok(x) => v < tokens@.len() && (tokens@[v as int] matches Token::Int(y) && fits_i32(y)
                && x == y as i32),
            Err(e) => e.at == v && if v < tokens@.len() {
                match tokens@[v as int] {
                    Token::Int(y) => !fits_i32(y) && e.kind == ParseErrorKind::IntOutOfRange,
                    _ => e.kind == ParseErrorKind::ExpectedInt,
                }
            } else {
                e.kind == ParseErrorKind::ExpectedInt
            },
        },
{
    if v >= tokens.len() {
        return Err(ParseError { at: v, kind: ParseErrorKind::ExpectedInt });
    }
    match &tokens[v] {
        Token::Int(x) => {
            if i32::MIN as i64 <= *x && *x <= i32::MAX as i64 {
                Ok(*x as i32)
            } else {
                Err(ParseError { at: v, kind: ParseErrorKind::IntOutOfRange })
            }
        },
        _ => Err(ParseError { at: v, kind: ParseErrorKind::ExpectedInt }),
    }
}

/// Parses a whole configuration token sequence into an option set, returning
/// exactly what the grammar (`spec_parse`) assigns to it.
pub fn parse_config(tokens: &Vec<Token>) -> (r: Result<BitmapBuilder, ParseError>)
    ensures
        match r {
            Ok(b) => spec_parse(tokens@) == Ok::<OptionsModel, ParseError>(b@),
            Err(e) => spec_parse(tokens@) == Err::<OptionsModel, ParseError>(e),
        },
{
    if tokens.len() == 0 {
        return Err(ParseError { at: 0, kind: ParseErrorKind::ExpectedPath });
    }
    let path: &String = match &tokens[0] {
        Token::Str(s) => s,
        _ => {
            return Err(ParseError { at: 0, kind: ParseErrorKind::ExpectedPath });
        },
    };
    let mut b = BitmapBuilder::new(path.as_str());
    if tokens.len() == 1 {
        return Ok(
            b.with_transparency(Transparency::Disabled).with_bit_depth_override(
                BitDepth::Custom(16),
            ).with_format(GfxFormat::Bitmap),
        );
    }
    match &tokens[1] {
        Token::Comma => {},
        _ => {
            return Err(ParseError { at: 1, kind: ParseErrorKind::ExpectedCommaAfterInput });
        },
    }
    let mut i: usize = 2;
    loop
        invariant
            2 <= i <= tokens@.len(),
            spec_parse(tokens@) == spec_parse_pairs(tokens@, i as int, b@),
        decreases tokens@.len() - i,
    {
        if i >= tokens.len() {
            return Ok(b);
        }
        match &tokens[i] {
            Token::Word(_) => {},
            _ => {
                return Err(ParseError { at: i, kind: ParseErrorKind::ExpectedKey });
            },
        }
        if i + 1 >= tokens.len() {
            return Err(ParseError { at: i + 1, kind: ParseErrorKind::ExpectedEq });
        }
        match &tokens[i + 1] {
            Token::Eq => {},
            _ => {
                return Err(ParseError { at: i + 1, kind: ParseErrorKind::ExpectedEq });
            },
        }
        b = match apply_pair(b, tokens, i) {
            Ok(b2) => b2,
            Err(e) => {
                return Err(e);
            },
        };
        let j = i + 3;
        if j >= tokens.len() {
            return Ok(b);
        }
        match &tokens[j] {
            Token::Comma => {},
            _ => {
                return Err(ParseError { at: j, kind: ParseErrorKind::ExpectedComma });
            },
        }
        i = j + 1;
    }
}

} // verus!
