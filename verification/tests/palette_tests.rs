use ici_files::animated::AnimatedIndexedImage;
use ici_files::animated::PlayType;
use ici_files::image::IndexedImage;
use ici_files::palette::FilePalette;
use ici_tool::color::Color;
use ici_tool::error::ToolError;
use ici_tool::loader::{check_palette, load, IndexedImageVariant};
use ici_tool::palette::PaletteMode;
use ici_tool::transplant::{
    assign_palette, extract, palette_from_swatch, palette_to_swatch, prepare_for_render,
    set_palettes,
};

fn ici_color(c: &Color) -> ici_files::color::Color {
    ici_files::color::Color::new(c.r, c.g, c.b, c.a)
}

fn sample_palette() -> Vec<Color> {
    vec![Color::new(1, 2, 3, 255), Color::new(4, 5, 6, 255)]
}

fn static_file_bytes(palette: &[Color], pixels: Vec<u8>, w: u8, h: u8, fp: &FilePalette) -> Vec<u8> {
    let pal: Vec<ici_files::color::Color> = palette.iter().map(ici_color).collect();
    IndexedImage::new(w, h, pal, pixels).unwrap().to_file_contents(fp).unwrap()
}

fn animated_file_bytes(palette: &[Color], pixels: Vec<u8>, w: u8, h: u8) -> Vec<u8> {
    let pal: Vec<ici_files::color::Color> = palette.iter().map(ici_color).collect();
    AnimatedIndexedImage::new(w, h, 0.1, 2, pal, pixels, PlayType::Loops)
        .unwrap()
        .to_file_contents(&FilePalette::Colors)
        .unwrap()
}

#[test]
fn load_static_file() {
    let bytes = static_file_bytes(&sample_palette(), vec![0, 1, 1, 0], 2, 2, &FilePalette::Colors);
    let (variant, mode) = load(&bytes, true).unwrap();
    assert_eq!(mode, PaletteMode::RawColors);
    match variant {
        IndexedImageVariant::Static(img) => {
            assert_eq!(img.get_pixels(), &[0, 1, 1, 0]);
            assert_eq!(img.get_palette().len(), 2);
        }
        IndexedImageVariant::Animated(_) => panic!("expected a static image"),
    }
}

#[test]
fn load_animated_file() {
    let bytes = animated_file_bytes(&sample_palette(), vec![0, 1, 1, 0, 1, 0, 0, 1], 2, 2);
    let (variant, mode) = load(&bytes, true).unwrap();
    assert_eq!(mode, PaletteMode::RawColors);
    match variant {
        IndexedImageVariant::Animated(img) => {
            assert_eq!(img.frame_count(), 2);
        }
        IndexedImageVariant::Static(_) => panic!("expected an animated image"),
    }
}

#[test]
fn load_identical_parse_errors_surface_static_error() {
    let bytes: Vec<u8> = vec![1, 2, 3];
    let static_err = IndexedImage::from_file_contents(&bytes).unwrap_err().to_string();
    let anim_err = AnimatedIndexedImage::from_file_contents(&bytes).unwrap_err().to_string();
    assert_eq!(static_err, anim_err);
    match load(&bytes, false) {
        Err(ToolError::UnderlyingCodecError(m)) => assert_eq!(m, static_err),
        other => panic!("unexpected outcome: {other:?}"),
    }
}

#[test]
fn load_distinct_parse_errors_surface_animated_error() {
    let mut bytes = static_file_bytes(&sample_palette(), vec![0, 1], 2, 1, &FilePalette::Colors);
    bytes[5] = 9; // an unknown palette kind: the parsers now fail differently
    let static_err = IndexedImage::from_file_contents(&bytes).unwrap_err().to_string();
    let anim_err = AnimatedIndexedImage::from_file_contents(&bytes).unwrap_err().to_string();
    assert_ne!(static_err, anim_err);
    match load(&bytes, false) {
        Err(ToolError::UnderlyingCodecError(m)) => assert_eq!(m, anim_err),
        other => panic!("unexpected outcome: {other:?}"),
    }
}

#[test]
fn load_refuses_zero_dimension_file() {
    // A header-correct static file recording a 0x0 image: the codec cannot
    // be handed these bytes, so the loader reports them as malformed.
    let bytes: Vec<u8> = vec![73, 67, 73, 1, 1, 0, 0, 0, 0, 0];
    match load(&bytes, false) {
        Err(ToolError::UnderlyingCodecError(m)) => {
            assert_eq!(m, "indexed image file is malformed");
        }
        other => panic!("unexpected outcome: {other:?}"),
    }
}

#[test]
fn load_validates_palette_mode() {
    let bytes = static_file_bytes(&sample_palette(), vec![0, 1], 2, 1, &FilePalette::NoData);
    assert_eq!(
        load(&bytes, true).unwrap_err(),
        ToolError::UnsupportedPaletteKind(PaletteMode::NoData)
    );
    let (_, mode) = load(&bytes, false).unwrap();
    assert_eq!(mode, PaletteMode::NoData);
}

#[test]
fn load_reports_reference_modes() {
    let by_id = static_file_bytes(&sample_palette(), vec![0, 1], 2, 1, &FilePalette::ID(7));
    let (_, mode) = load(&by_id, false).unwrap();
    assert_eq!(mode, PaletteMode::ReferenceById(7));
    let by_name = static_file_bytes(
        &sample_palette(),
        vec![0, 1],
        2,
        1,
        &FilePalette::Name("duskset".to_string()),
    );
    let (_, mode) = load(&by_name, false).unwrap();
    assert_eq!(mode, PaletteMode::ReferenceByName("duskset".to_string()));
}

#[test]
fn check_palette_accepts_only_raw_colors() {
    assert_eq!(check_palette(PaletteMode::RawColors), Ok(()));
    assert_eq!(
        check_palette(PaletteMode::ReferenceById(3)),
        Err(ToolError::UnsupportedPaletteKind(PaletteMode::ReferenceById(3)))
    );
}

#[test]
fn extract_returns_stored_palette_in_order() {
    let palette = sample_palette();
    let bytes = static_file_bytes(&palette, vec![1, 0], 2, 1, &FilePalette::Colors);
    assert_eq!(extract(&bytes).unwrap(), palette);
}

#[test]
fn extract_rejects_external_palette_reference() {
    let bytes = static_file_bytes(&sample_palette(), vec![0, 1], 2, 1, &FilePalette::ID(2));
    assert_eq!(
        extract(&bytes).unwrap_err(),
        ToolError::UnsupportedPaletteKind(PaletteMode::ReferenceById(2))
    );
}

#[test]
fn extract_then_set_is_a_no_op() {
    let bytes = static_file_bytes(&sample_palette(), vec![0, 1, 1, 0], 2, 2, &FilePalette::Colors);
    let palette = extract(&bytes).unwrap();
    let rewritten = assign_palette(&bytes, &palette).unwrap();
    assert_eq!(rewritten, bytes);
    let (img, _) = IndexedImage::from_file_contents(&rewritten).unwrap();
    assert_eq!(img.get_pixels(), &[0, 1, 1, 0]);
    assert_eq!(img.get_palette(), &sample_palette().iter().map(ici_color).collect::<Vec<_>>()[..]);
}

#[test]
fn set_with_wrong_length_fails_and_leaves_target_alone() {
    let bytes = static_file_bytes(&sample_palette(), vec![0, 1], 2, 1, &FilePalette::Colors);
    let before = bytes.clone();
    let short = vec![Color::new(9, 9, 9, 255)];
    assert_eq!(assign_palette(&bytes, &short), Err(ToolError::PaletteSizeMismatch(1, 2)));
    assert_eq!(bytes, before);
    let (img, _) = IndexedImage::from_file_contents(&bytes).unwrap();
    assert_eq!(img.get_palette().len(), 2);
}

#[test]
fn set_updates_animated_palette() {
    let bytes = animated_file_bytes(&sample_palette(), vec![0, 1, 1, 0, 1, 0, 0, 1], 2, 2);
    let replacement = vec![Color::new(100, 0, 0, 255), Color::new(0, 100, 0, 255)];
    let rewritten = assign_palette(&bytes, &replacement).unwrap();
    let (img, _) = AnimatedIndexedImage::from_file_contents(&rewritten).unwrap();
    assert_eq!(img.get_palette(), &replacement.iter().map(ici_color).collect::<Vec<_>>()[..]);
    assert_eq!(img.get_pixels(), &[0, 1, 1, 0, 1, 0, 0, 1]);
}

#[test]
fn batch_set_processes_every_target_and_reports_each() {
    let good = static_file_bytes(&sample_palette(), vec![0, 1, 0], 3, 1, &FilePalette::Colors);
    let three = vec![
        Color::new(1, 1, 1, 255),
        Color::new(2, 2, 2, 255),
        Color::new(3, 3, 3, 255),
    ];
    let mismatched = static_file_bytes(&three, vec![0, 1, 2], 3, 1, &FilePalette::Colors);
    let replacement = vec![Color::new(40, 40, 40, 255), Color::new(50, 50, 50, 255)];
    let outs = set_palettes(&replacement, &vec![good, mismatched]);
    assert_eq!(outs.len(), 2);
    let updated = outs[0].as_ref().unwrap();
    let (img, _) = IndexedImage::from_file_contents(updated).unwrap();
    assert_eq!(img.get_palette(), &replacement.iter().map(ici_color).collect::<Vec<_>>()[..]);
    assert_eq!(img.get_pixels(), &[0, 1, 0]);
    assert_eq!(outs[1], Err(ToolError::PaletteSizeMismatch(2, 3)));
}

#[test]
fn swatch_round_trip() {
    let colors = vec![Color::new(3, 14, 15, 255), Color::new(92, 65, 35, 8)];
    let text = palette_to_swatch(&colors);
    let expected = ici_files::jasc_palette::JascPalette::new(
        colors.iter().map(ici_color).collect(),
    )
    .to_file_contents();
    assert_eq!(text, expected);
    assert_eq!(palette_from_swatch(&text).unwrap(), colors);
}

#[test]
fn swatch_parse_failure_carries_parser_message() {
    match palette_from_swatch("not a palette") {
        Err(ToolError::UnderlyingCodecError(m)) => assert!(!m.is_empty()),
        other => panic!("unexpected outcome: {other:?}"),
    }
}

#[test]
fn prepare_for_render_requires_raw_colors_without_replacement() {
    let bytes = static_file_bytes(&sample_palette(), vec![0, 1], 2, 1, &FilePalette::NoData);
    let (mut variant, mode) = load(&bytes, false).unwrap();
    assert_eq!(
        prepare_for_render(&mut variant, mode, None),
        Err(ToolError::UnsupportedPaletteKind(PaletteMode::NoData))
    );
}

#[test]
fn prepare_for_render_applies_replacement() {
    let bytes = static_file_bytes(&sample_palette(), vec![0, 1], 2, 1, &FilePalette::NoData);
    let (mut variant, mode) = load(&bytes, false).unwrap();
    let replacement = vec![Color::new(7, 7, 7, 255), Color::new(8, 8, 8, 255)];
    prepare_for_render(&mut variant, mode, Some(replacement.clone())).unwrap();
    match variant {
        IndexedImageVariant::Static(img) => {
            assert_eq!(
                img.get_palette(),
                &replacement.iter().map(ici_color).collect::<Vec<_>>()[..]
            );
        }
        IndexedImageVariant::Animated(_) => panic!("expected a static image"),
    }
}

#[test]
fn set_rejects_palette_shorter_than_highest_pixel_index() {
    // The codec accepts an image whose pixel indices run past its stored
    // palette; replacing that palette with one of equal length is then
    // refused by the codec itself, and the refusal is passed through.
    let pal: Vec<ici_files::color::Color> = sample_palette().iter().map(ici_color).collect();
    let image = IndexedImage::new(1, 1, pal, vec![5]).unwrap();
    let bytes = image.to_file_contents(&FilePalette::Colors).unwrap();
    match assign_palette(&bytes, &sample_palette()) {
        Err(ToolError::UnderlyingCodecError(m)) => {
            assert!(m.contains("at least"), "unexpected message: {m}");
        }
        other => panic!("unexpected outcome: {other:?}"),
    }
}

#[test]
fn load_refuses_truncated_oversized_static_file() {
    // A header-correct static file recording 16x16 with no pixel data: the
    // codec's truncated-pixels error path multiplies the dimension bytes in
    // 8-bit arithmetic, so the loader refuses the bytes up front.
    let bytes: Vec<u8> = vec![73, 67, 73, 1, 1, 0, 16, 16, 0, 0];
    match load(&bytes, false) {
        Err(ToolError::UnderlyingCodecError(m)) => {
            assert_eq!(m, "indexed image file is malformed");
        }
        other => panic!("unexpected outcome: {other:?}"),
    }
}

#[test]
fn load_surfaces_animated_error_for_unknown_play_type() {
    // A type-2 file with a complete palette section, 1x1 dimensions and an
    // unknown play-type byte: both parsers fail cleanly with different
    // texts, and the animated parser's is surfaced.
    let bytes: Vec<u8> = vec![73, 67, 73, 1, 2, 1, 0, 5, 1, 1, 99];
    let static_err = IndexedImage::from_file_contents(&bytes).unwrap_err().to_string();
    let anim_err = AnimatedIndexedImage::from_file_contents(&bytes).unwrap_err().to_string();
    assert_ne!(static_err, anim_err);
    match load(&bytes, false) {
        Err(ToolError::UnderlyingCodecError(m)) => assert_eq!(m, anim_err),
        other => panic!("unexpected outcome: {other:?}"),
    }
}

#[test]
fn load_surfaces_animated_error_for_zero_frame_file() {
    // A type-2 file whose frame-count byte is zero: the codec rejects it
    // cleanly, and the loader surfaces that rejection rather than its own.
    let bytes: Vec<u8> = vec![73, 67, 73, 1, 2, 0, 1, 1, 2, 0];
    let anim_err = AnimatedIndexedImage::from_file_contents(&bytes).unwrap_err().to_string();
    match load(&bytes, false) {
        Err(ToolError::UnderlyingCodecError(m)) => assert_eq!(m, anim_err),
        other => panic!("unexpected outcome: {other:?}"),
    }
}
