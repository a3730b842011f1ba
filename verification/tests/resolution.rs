use rgrit::AreaRect;
use rgrit::BitDepth;
use rgrit::BitDepthDirective;
use rgrit::BitmapBuilder;
use rgrit::Color;
use rgrit::Compression;
use rgrit::Error;
use rgrit::GfxFormat;
use rgrit::Transparency;
use rgrit::TransparencyDirective;
use rgrit::expand_channel5;
use rgrit::resolve_axis;
use rgrit::resolve_bit_depth;
use rgrit::resolve_transparency;

#[test]
fn bit_depth_accepts_all_small_powers_of_two() {
    for n in [1u8, 2, 4, 8, 16] {
        assert_eq!(
            resolve_bit_depth(BitDepth::Custom(n)),
            Ok(BitDepthDirective::BitsPerPixel(n))
        );
    }
}

#[test]
fn bit_depth_rejects_everything_else() {
    for n in [0u8, 3, 5, 6, 7, 9, 15, 17, 31, 32, 64, 128, 255] {
        assert!(matches!(
            resolve_bit_depth(BitDepth::Custom(n)),
            Err(Error::BadBitDepth(m)) if m == n
        ));
    }
}

#[test]
fn bit_depth_presets_map_to_texture_formats() {
    assert_eq!(
        resolve_bit_depth(BitDepth::A3I5),
        Ok(BitDepthDirective::TextureA3I5)
    );
    assert_eq!(
        resolve_bit_depth(BitDepth::A5I3),
        Ok(BitDepthDirective::TextureA5I3)
    );
    assert_eq!(
        resolve_bit_depth(BitDepth::FourByFour),
        Ok(BitDepthDirective::TextureFourByFour)
    );
}

#[test]
fn channel_expansion_is_exact() {
    // Red-only packed color: low five bits set.
    assert_eq!(
        resolve_transparency(Transparency::Color(Color::GBR16(0b00000_00000_11111))),
        TransparencyDirective::ColorKey { blue: 0, green: 0, red: 255 }
    );
    // All channels zero.
    assert_eq!(
        resolve_transparency(Transparency::Color(Color::GBR16(0))),
        TransparencyDirective::ColorKey { blue: 0, green: 0, red: 0 }
    );
    // All channels full.
    assert_eq!(
        resolve_transparency(Transparency::Color(Color::GBR16(0b11111_11111_11111))),
        TransparencyDirective::ColorKey { blue: 255, green: 255, red: 255 }
    );
}

#[test]
fn channel_expansion_truncates() {
    // 1 * 255 / 31 = 8.22... truncates to 8; 16 * 255 / 31 = 131.6 to 131.
    assert_eq!(expand_channel5(1), 8);
    assert_eq!(expand_channel5(16), 131);
    assert_eq!(expand_channel5(30), 246);
}

#[test]
fn defaults_match_the_documented_ones() {
    assert!(matches!(GfxFormat::default(), GfxFormat::Bitmap));
    assert!(matches!(Compression::default(), Compression::Off));
    assert!(matches!(
        Transparency::default(),
        Transparency::Color(Color::RGB { r: 0xFF, g: 0, b: 0xFF })
    ));
}

#[test]
fn transparency_disabled_is_alpha_bit_mode() {
    assert_eq!(
        resolve_transparency(Transparency::Disabled),
        TransparencyDirective::AlphaBit
    );
}

#[test]
fn transparency_rgb_keeps_exact_channels_in_engine_order() {
    assert_eq!(
        resolve_transparency(Transparency::Color(Color::RGB { r: 1, g: 2, b: 3 })),
        TransparencyDirective::ColorKey { blue: 3, green: 2, red: 1 }
    );
}

#[test]
fn area_width_relative_to_left() {
    assert_eq!(resolve_axis(0, Some(10), None), Some(10));
}

#[test]
fn area_explicit_bound_wins_over_unset_size() {
    assert_eq!(resolve_axis(5, Some(-1), Some(20)), Some(20));
}

#[test]
fn area_nothing_given_defers_to_engine() {
    assert_eq!(resolve_axis(5, None, None), None);
}

#[test]
fn area_both_sentinels_defer_to_engine() {
    assert_eq!(resolve_axis(0, Some(-1), Some(-1)), None);
}

#[test]
fn area_size_wins_over_bound_when_both_real() {
    assert_eq!(resolve_axis(3, Some(10), Some(99)), Some(13));
}

#[test]
fn bitmap_format_defaults_tile_to_one_by_one() {
    let params = BitmapBuilder::new("img.png")
        .with_format(GfxFormat::Bitmap)
        .resolve()
        .unwrap();
    assert_eq!(params.tile_width, 1);
    assert_eq!(params.tile_height, 1);
}

#[test]
fn tile_format_defaults_tile_to_eight_by_eight() {
    let params = BitmapBuilder::new("img.png")
        .with_format(GfxFormat::Tile)
        .resolve()
        .unwrap();
    assert_eq!(params.tile_width, 8);
    assert_eq!(params.tile_height, 8);
}

#[test]
fn unset_format_means_bitmap() {
    let params = BitmapBuilder::new("img.png").resolve().unwrap();
    assert_eq!(params.tile_width, 1);
    assert_eq!(params.tile_height, 1);
}

#[test]
fn explicit_tile_dims_override_format_default() {
    let params = BitmapBuilder::new("img.png")
        .with_format(GfxFormat::Tile)
        .with_tile_width(4)
        .with_tile_height(2)
        .resolve()
        .unwrap();
    assert_eq!(params.tile_width, 4);
    assert_eq!(params.tile_height, 2);
}

#[test]
fn meta_dims_default_to_one() {
    let params = BitmapBuilder::new("img.png").resolve().unwrap();
    assert_eq!(params.meta_width, 1);
    assert_eq!(params.meta_height, 1);
    let params = BitmapBuilder::new("img.png")
        .with_meta_width(3)
        .with_meta_height(5)
        .resolve()
        .unwrap();
    assert_eq!(params.meta_width, 3);
    assert_eq!(params.meta_height, 5);
}

#[test]
fn default_transparency_is_magenta_color_key() {
    let params = BitmapBuilder::new("img.png").resolve().unwrap();
    assert_eq!(
        params.transparency,
        TransparencyDirective::ColorKey { blue: 0xFF, green: 0, red: 0xFF }
    );
}

#[test]
fn compression_passes_through_unset_or_set() {
    let params = BitmapBuilder::new("img.png").resolve().unwrap();
    assert_eq!(params.compression, None);
    let params = BitmapBuilder::new("img.png")
        .with_compression(Compression::RLE)
        .resolve()
        .unwrap();
    assert_eq!(params.compression, Some(Compression::RLE));
}

#[test]
fn area_defaults_and_overrides_resolve_together() {
    let params = BitmapBuilder::new("img.png")
        .with_area_left(5)
        .with_area_width(-1)
        .with_area_right(20)
        .with_area_top(2)
        .with_area_height(7)
        .resolve()
        .unwrap();
    assert_eq!(
        params.area,
        AreaRect { left: 5, top: 2, right: Some(20), bottom: Some(9) }
    );
}

#[test]
fn area_unset_leaves_engine_defaults() {
    let params = BitmapBuilder::new("img.png").resolve().unwrap();
    assert_eq!(params.area, AreaRect { left: 0, top: 0, right: None, bottom: None });
}

#[test]
fn invalid_custom_bit_depth_fails_resolution() {
    let r = BitmapBuilder::new("img.png")
        .with_bit_depth_override(BitDepth::Custom(17))
        .resolve();
    assert!(matches!(r, Err(Error::BadBitDepth(17))));
}

#[test]
fn setters_are_last_write_wins() {
    let params = BitmapBuilder::new("img.png")
        .with_tile_width(3)
        .with_tile_width(9)
        .resolve()
        .unwrap();
    assert_eq!(params.tile_width, 9);
}

#[test]
fn resolution_is_idempotent() {
    let builder = BitmapBuilder::new("img.png")
        .with_format(GfxFormat::Tile)
        .with_bit_depth_override(BitDepth::Custom(4))
        .with_transparency(Transparency::Color(Color::GBR16(0b10000_01000_00100)))
        .with_compression(Compression::LZ77)
        .with_area_width(12)
        .with_area_height(34);
    let first = builder.resolve().unwrap();
    let second = builder.resolve().unwrap();
    assert_eq!(first, second);
    assert_eq!(builder.resolved_spec(), builder.clone().resolved_spec());
}

#[test]
fn check_input_accepts_ordinary_paths() {
    assert!(BitmapBuilder::new("does/not/exist.png").check_input().is_ok());
}

#[test]
fn check_input_reports_first_nul() {
    let r = BitmapBuilder::new("ab\0cd\0e").check_input();
    assert!(matches!(r, Err(Error::BadInput(2))));
}

#[test]
fn decode_failure_is_input_not_found() {
    let b = BitmapBuilder::new("does/not/exist.png");
    assert!(matches!(
        b.decode_outcome(false),
        Err(Error::InputNotFound(p)) if p == "does/not/exist.png"
    ));
    assert!(b.decode_outcome(true).is_ok());
}

#[test]
fn engine_failure_is_conversion_error() {
    let b = BitmapBuilder::new("img.png");
    let r = b.finish(false, None, None, None, None);
    assert!(matches!(r, Err(Error::ConversionError(p)) if p == "img.png"));
}

#[test]
fn absent_records_become_empty_buffers() {
    let b = BitmapBuilder::new("img.png").with_format(GfxFormat::Tile);
    let bitmap = b
        .finish(true, Some(vec![1, 2, 3]), None, Some(vec![]), Some(vec![9]))
        .unwrap();
    assert_eq!(bitmap.gfx, vec![1, 2, 3]);
    assert_eq!(bitmap.palette, Vec::<u8>::new());
    assert_eq!(bitmap.map, Vec::<u8>::new());
    assert_eq!(bitmap.meta, vec![9]);
    assert!(matches!(bitmap.spec.format, GfxFormat::Tile));
    assert!(bitmap.spec.bit_depth.is_none());
    assert!(matches!(
        bitmap.spec.transparency,
        Transparency::Color(Color::RGB { r: 0xFF, g: 0, b: 0xFF })
    ));
}
