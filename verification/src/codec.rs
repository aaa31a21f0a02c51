//! The trusted boundary to the external indexed-image codec (the `ici_files`
//! crate). The library never re-implements the binary layout; every call
//! into the codec goes through one of the wrappers below, whose contracts
//! state what the codec's source shows.
//!
//! The codec's parsers abort on a few malformed inputs: a file whose
//! recorded width or height is zero, an animated file truncated inside its
//! frame header, and a truncated static file whose error message multiplies
//! the dimension bytes in 8-bit arithmetic. The byte guards in this module
//! delimit the palette section and the frame header — nothing more — so
//! that the loader can refuse such bytes before the codec ever sees them;
//! every input a wrapper admits returns normally.

use vstd::prelude::*;
use crate::color::Color;
use crate::palette::PaletteMode;

verus! {

// ---------------------------------------------------------------------------
// Byte guards
// ---------------------------------------------------------------------------

/// Whether `b` starts with the codec's file header: the three magic bytes
/// `I`, `C`, `I` (73, 67, 73), the format version 1, and at least the ten
/// bytes the codec demands before it reads any section.
pub open spec fn header_ok(b: Seq<u8>) -> bool {
    &&& b.len() >= 10
    &&& b[0] == 73u8
    &&& b[1] == 67u8
    &&& b[2] == 73u8
    &&& b[3] == 1u8
}

/// The length of the palette section that starts at offset 5, when the
/// section is complete and of a known kind: 1 byte for "no data", 3 for a
/// numeric reference, the name length plus 2 for a named reference, and
/// four bytes per color plus 2 for inline colors.
pub open spec fn palette_section_len(b: Seq<u8>) -> Option<int>
    recommends
        b.len() >= 10,
{
    if b[5] == 0 {
        Some(1int)
    } else if b[5] == 1 {
        Some(3int)
    } else if b[5] == 2 {
        if b.len() >= 7 + b[6] {
            Some(b[6] + 2)
        } else {
            None
        }
    } else if b[5] == 3 {
        if b.len() >= 7 + 4 * b[6] {
            Some(4 * b[6] + 2)
        } else {
            None
        }
    } else {
        None
    }
}

/// Bytes the static parser returns normally from: it must not reach its
/// pixel slice with a zero width or height, and its truncated-pixels error
/// message — which multiplies the two dimension bytes in 8-bit
/// arithmetic — must not be reached when that product overflows.
pub open spec fn bytes_static_safe(b: Seq<u8>) -> bool {
    !({
        &&& header_ok(b)
        &&& b[4] == 1
        &&& match palette_section_len(b) {
            Some(s) => {
                &&& b.len() >= 5 + s + 3
                &&& {
                    ||| b[5 + s] == 0
                    ||| b[5 + s + 1] == 0
                    ||| (b[5 + s] * b[5 + s + 1] > 255 && b.len() < 5 + s + 2 + b[5 + s] * b[5
                        + s + 1])
                }
            },
            None => false,
        }
    })
}

/// Bytes the animated parser returns normally from. Once the play-type
/// byte is a known one (0 through 4), the parser indexes the frame-count
/// byte and an 8-byte frame-time field it never bounds-checks, and it takes
/// the maximum of an empty pixel slice when a dimension byte is zero. The
/// last case is refused whatever the frame-time field holds: the parser
/// rejects a non-positive frame time cleanly just before it, but that test
/// is floating-point and outside this model, so a zero-dimension file with
/// a non-positive frame time is refused here although the codec would
/// report it normally.
pub open spec fn bytes_animated_safe(b: Seq<u8>) -> bool {
    !({
        &&& header_ok(b)
        &&& b[4] == 2
        &&& match palette_section_len(b) {
            Some(s) => {
                &&& b.len() >= 5 + s + 3
                &&& b[5 + s + 2] <= 4
                &&& {
                    ||| b.len() == 5 + s + 3
                    ||| (5 + s + 4 <= b.len() < 5 + s + 12 && b[5 + s + 3] > 0)
                    ||| (b.len() >= 5 + s + 12 && b[5 + s + 3] > 0 && (b[5 + s] == 0 || b[5 + s
                        + 1] == 0))
                }
            },
            None => false,
        }
    })
}

/// Bytes both parsers return normally from.
pub open spec fn bytes_codec_safe(b: Seq<u8>) -> bool {
    bytes_static_safe(b) && bytes_animated_safe(b)
}

/// Decides `bytes_codec_safe` on real bytes.
pub fn bytes_codec_safe_check(bytes: &Vec<u8>) -> (r: bool)
    ensures
        r == bytes_codec_safe(bytes@),
{
    if bytes.len() < 10 {
        return true;
    }
    if !(bytes[0] == 73 && bytes[1] == 67 && bytes[2] == 73 && bytes[3] == 1) {
        return true;
    }
    if bytes[4] != 1 && bytes[4] != 2 {
        return true;
    }
    let section: usize = if bytes[5] == 0 {
        1
    } else if bytes[5] == 1 {
        3
    } else if bytes[5] == 2 {
        if bytes.len() >= 7 + bytes[6] as usize {
            bytes[6] as usize + 2
        } else {
            return true;
        }
    } else if bytes[5] == 3 {
        if bytes.len() >= 7 + 4 * (bytes[6] as usize) {
            4 * (bytes[6] as usize) + 2
        } else {
            return true;
        }
    } else {
        return true;
    };
    assert(palette_section_len(bytes@) == Some(section as int));
    let start: usize = 5 + section;
    if bytes.len() < start + 3 {
        return true;
    }
    let w: usize = bytes[start] as usize;
    let h: usize = bytes[start + 1] as usize;
    proof {
        assert(section <= 1022);
        assert(w * h <= 65025) by (nonlinear_arith)
            requires
                w <= 255,
                h <= 255,
        ;
    }
    if bytes[4] == 1 {
        if w == 0 || h == 0 {
            return false;
        }
        !(w * h > 255 && bytes.len() < start + 2 + w * h)
    } else {
        if bytes[start + 2] > 4 {
            return true;
        }
        if bytes.len() == start + 3 {
            return false;
        }
        if bytes.len() < start + 12 {
            bytes[start + 3] == 0
        } else {
            !(bytes[start + 3] > 0 && (w == 0 || h == 0))
        }
    }
}

/// The largest index value occurring in a pixel sequence (0 for an empty
/// one). The codec records this for every image it builds and accepts a
/// replacement palette exactly when it is no shorter than this value.
pub open spec fn highest_index(s: Seq<u8>) -> u8
    decreases s.len(),
{
    if s.len() == 0 {
        0u8
    } else if s.last() >= highest_index(s.drop_last()) {
        s.last()
    } else {
        highest_index(s.drop_last())
    }
}

/// Whether a 64-bit float bit pattern has its sign bit clear and is not
/// zero. The codec's frame-time test passes exactly the patterns that do
/// not compare "less or equal" to zero; every pattern this predicate holds
/// of is among them.
pub open spec fn f64_bits_positive(bits: u64) -> bool {
    bits != 0 && bits < 0x8000000000000000u64
}

// ---------------------------------------------------------------------------
// Declared outside types
// ---------------------------------------------------------------------------

#[verifier::external_type_specification]
#[verifier::external_body]
pub struct ExIndexedImage(ici_files::image::IndexedImage);

#[verifier::external_type_specification]
#[verifier::external_body]
pub struct ExAnimatedIndexedImage(ici_files::animated::AnimatedIndexedImage);

// ---------------------------------------------------------------------------
// Names for what the codec computes
// ---------------------------------------------------------------------------

/// What `IndexedImage::from_file_contents` returns for `b`: the parsed
/// image's palette, pixel indices, palette mode and `(width, height)`, or
/// the failure's message text.
pub uninterp spec fn static_parse(b: Seq<u8>) -> Result<
    (Seq<Color>, Seq<u8>, PaletteMode, (u8, u8)),
    Seq<char>,
>;

/// What `AnimatedIndexedImage::from_file_contents` returns for `b`, in the
/// same shape as `static_parse` (the pixel indices are all frames,
/// concatenated).
pub uninterp spec fn animated_parse(b: Seq<u8>) -> Result<
    (Seq<Color>, Seq<u8>, PaletteMode, (u8, u8)),
    Seq<char>,
>;

/// The palette a static image holds.
pub uninterp spec fn image_palette(img: ici_files::image::IndexedImage) -> Seq<Color>;

/// The pixel indices a static image holds.
pub uninterp spec fn image_pixels(img: ici_files::image::IndexedImage) -> Seq<u8>;

/// The smallest palette length a static image accepts when its palette is
/// replaced (the codec's recorded highest pixel index).
pub uninterp spec fn image_min_palette(img: ici_files::image::IndexedImage) -> u8;

/// The width a static image records.
pub uninterp spec fn image_width(img: ici_files::image::IndexedImage) -> u8;

/// The height a static image records.
pub uninterp spec fn image_height(img: ici_files::image::IndexedImage) -> u8;

/// What `IndexedImage::to_file_contents` returns for an image when the
/// palette is written as inline colors.
pub uninterp spec fn image_encoding(img: ici_files::image::IndexedImage) -> Seq<u8>;

/// The shared palette an animated image holds.
pub uninterp spec fn anim_palette(img: ici_files::animated::AnimatedIndexedImage) -> Seq<Color>;

/// The pixel indices of all frames of an animated image, concatenated.
pub uninterp spec fn anim_pixels(img: ici_files::animated::AnimatedIndexedImage) -> Seq<u8>;

/// The smallest palette length an animated image accepts when its palette
/// is replaced.
pub uninterp spec fn anim_min_palette(img: ici_files::animated::AnimatedIndexedImage) -> u8;

/// The width an animated image records.
pub uninterp spec fn anim_width(img: ici_files::animated::AnimatedIndexedImage) -> u8;

/// The height an animated image records.
pub uninterp spec fn anim_height(img: ici_files::animated::AnimatedIndexedImage) -> u8;

/// The number of frames an animated image holds.
pub uninterp spec fn anim_frame_count(img: ici_files::animated::AnimatedIndexedImage) -> u8;

/// The bit pattern of the per-frame display time an animated image records.
pub uninterp spec fn anim_frame_time_bits(img: ici_files::animated::AnimatedIndexedImage) -> u64;

/// What `AnimatedIndexedImage::to_file_contents` returns for an image when
/// the palette is written as inline colors.
pub uninterp spec fn anim_encoding(img: ici_files::animated::AnimatedIndexedImage) -> Seq<u8>;

/// What `JascPalette::from_file_contents` returns for `text`: the ordered
/// colors of the swatch file, or the failure's message text.
pub uninterp spec fn swatch_parse(text: Seq<char>) -> Result<Seq<Color>, Seq<char>>;

/// What `JascPalette::to_file_contents` returns for a color sequence.
pub uninterp spec fn swatch_encoding(colors: Seq<Color>) -> Seq<char>;

// ---------------------------------------------------------------------------
// Wrappers
// ---------------------------------------------------------------------------

/// Relies on `IndexedImage::from_file_contents`: parses `bytes` as a static
/// indexed image. The parse depends on the bytes alone; a parsed image
/// never has an empty palette, and its recorded highest pixel index is the
/// maximum of its pixel values (the codec's constructor rejects the former
/// and computes the latter).
#[verifier::external_body]
pub(crate) fn parse_static_file(bytes: &Vec<u8>) -> (r: Result<
    (ici_files::image::IndexedImage, PaletteMode),
    String,
>)
    requires
        bytes_static_safe(bytes@),
    ensures
        match r {
            Ok((img, mode)) => static_parse(bytes@) matches Ok(p) && p.0 == image_palette(img)
                && p.1 == image_pixels(img) && p.2 == mode && p.3 == (
            image_width(img),
            image_height(img),
            ) && image_palette(img).len() >= 1 && image_min_palette(img) == highest_index(
                image_pixels(img),
            ),
            Err(e) => static_parse(bytes@) matches Err(t) && t == e@,
        },
{
    match ici_files::image::IndexedImage::from_file_contents(bytes) {
        Ok((img, ici_files::palette::FilePalette::Colors)) => Ok((img, PaletteMode::RawColors)),
        Ok((img, ici_files::palette::FilePalette::ID(id))) => Ok((
            img,
            PaletteMode::ReferenceById(id),
        )),
        Ok((img, ici_files::palette::FilePalette::Name(n))) => Ok((
            img,
            PaletteMode::ReferenceByName(n),
        )),
        Ok((img, ici_files::palette::FilePalette::NoData)) => Ok((img, PaletteMode::NoData)),
        Err(e) => Err(e.to_string()),
    }
}

/// Relies on `AnimatedIndexedImage::from_file_contents`: parses `bytes` as
/// an animated indexed image, in the same shape as `parse_static_file`.
#[verifier::external_body]
pub(crate) fn parse_animated_file(bytes: &Vec<u8>) -> (r: Result<
    (ici_files::animated::AnimatedIndexedImage, PaletteMode),
    String,
>)
    requires
        bytes_animated_safe(bytes@),
    ensures
        match r {
            Ok((img, mode)) => animated_parse(bytes@) matches Ok(p) && p.0 == anim_palette(img)
                && p.1 == anim_pixels(img) && p.2 == mode && p.3 == (
            anim_width(img),
            anim_height(img),
            ) && anim_palette(img).len() >= 1 && anim_min_palette(img) == highest_index(
                anim_pixels(img),
            ),
            Err(e) => animated_parse(bytes@) matches Err(t) && t == e@,
        },
{
    match ici_files::animated::AnimatedIndexedImage::from_file_contents(bytes) {
        Ok((img, ici_files::palette::FilePalette::Colors)) => Ok((img, PaletteMode::RawColors)),
        Ok((img, ici_files::palette::FilePalette::ID(id))) => Ok((
            img,
            PaletteMode::ReferenceById(id),
        )),
        Ok((img, ici_files::palette::FilePalette::Name(n))) => Ok((
            img,
            PaletteMode::ReferenceByName(n),
        )),
        Ok((img, ici_files::palette::FilePalette::NoData)) => Ok((img, PaletteMode::NoData)),
        Err(e) => Err(e.to_string()),
    }
}

/// Relies on `IndexedImage::get_palette`: hands out the image's palette.
#[verifier::external_body]
pub(crate) fn static_palette_colors(img: &ici_files::image::IndexedImage) -> (r: Vec<Color>)
    ensures
        r@ == image_palette(*img),
{
    img.get_palette().iter().map(|c| Color { r: c.r, g: c.g, b: c.b, a: c.a }).collect()
}

/// Relies on `AnimatedIndexedImage::get_palette`: hands out the image's
/// shared palette.
#[verifier::external_body]
pub(crate) fn animated_palette_colors(img: &ici_files::animated::AnimatedIndexedImage) -> (r: Vec<
    Color,
>)
    ensures
        r@ == anim_palette(*img),
{
    img.get_palette().iter().map(|c| Color { r: c.r, g: c.g, b: c.b, a: c.a }).collect()
}

/// Relies on `IndexedImage::set_palette`: replaces the palette and nothing
/// else, and succeeds exactly when the new palette is no shorter than the
/// image's highest pixel index. The codec aborts on an empty replacement,
/// so one is never handed to it.
#[verifier::external_body]
pub(crate) fn static_set_palette(img: &mut ici_files::image::IndexedImage, pal: &Vec<Color>) -> (r:
    Result<(), String>)
    requires
        pal@.len() >= 1,
    ensures
        match r {
            Ok(()) => {
                &&& pal@.len() >= image_min_palette(*old(img))
                &&& image_palette(*final(img)) == pal@
                &&& image_pixels(*final(img)) == image_pixels(*old(img))
                &&& image_min_palette(*final(img)) == image_min_palette(*old(img))
                &&& image_width(*final(img)) == image_width(*old(img))
                &&& image_height(*final(img)) == image_height(*old(img))
            },
            Err(_) => pal@.len() < image_min_palette(*old(img)) && *final(img) == *old(img),
        },
{
    let colors: Vec<ici_files::color::Color> = pal.iter().map(
        |c| ici_files::color::Color::new(c.r, c.g, c.b, c.a),
    ).collect();
    img.set_palette(&colors).map_err(|e| e.to_string())
}

/// Relies on `AnimatedIndexedImage::set_palette`: as `static_set_palette`.
#[verifier::external_body]
pub(crate) fn animated_set_palette(
    img: &mut ici_files::animated::AnimatedIndexedImage,
    pal: &Vec<Color>,
) -> (r: Result<(), String>)
    requires
        pal@.len() >= 1,
    ensures
        match r {
            Ok(()) => {
                &&& pal@.len() >= anim_min_palette(*old(img))
                &&& anim_palette(*final(img)) == pal@
                &&& anim_pixels(*final(img)) == anim_pixels(*old(img))
                &&& anim_min_palette(*final(img)) == anim_min_palette(*old(img))
                &&& anim_width(*final(img)) == anim_width(*old(img))
                &&& anim_height(*final(img)) == anim_height(*old(img))
                &&& anim_frame_count(*final(img)) == anim_frame_count(*old(img))
                &&& anim_frame_time_bits(*final(img)) == anim_frame_time_bits(*old(img))
            },
            Err(_) => pal@.len() < anim_min_palette(*old(img)) && *final(img) == *old(img),
        },
{
    let colors: Vec<ici_files::color::Color> = pal.iter().map(
        |c| ici_files::color::Color::new(c.r, c.g, c.b, c.a),
    ).collect();
    img.set_palette(&colors).map_err(|e| e.to_string())
}

/// Relies on `IndexedImage::to_file_contents` with inline colors, which its
/// source never fails for: serializes the image to file bytes. For an image
/// in the codec's representable range — nonzero dimensions, 1 to 255
/// palette entries, one pixel per cell — re-parsing those bytes yields the
/// same palette, pixels and dimensions, with inline raw colors.
#[verifier::external_body]
pub(crate) fn encode_static(img: &ici_files::image::IndexedImage) -> (r: Result<Vec<u8>, String>)
    ensures
        match r {
            Ok(b) => b@ == image_encoding(*img) && ((1 <= image_palette(*img).len() <= 255
                && image_width(*img) > 0 && image_height(*img) > 0 && image_pixels(*img).len()
                == image_width(*img) as int * image_height(*img) as int) ==> (static_parse(b@)
                matches Ok(p) && p.0 == image_palette(*img) && p.1 == image_pixels(*img) && p.2
                 is RawColors && p.3 == (image_width(*img), image_height(*img)))),
            Err(_) => false,
        },
{
    img.to_file_contents(&ici_files::palette::FilePalette::Colors).map_err(|e| e.to_string())
}

/// Relies on `AnimatedIndexedImage::to_file_contents` with inline colors,
/// which its source never fails for: serializes the image to file bytes.
/// For an image in the codec's representable range — nonzero dimensions, 1
/// to 255 palette entries, a nonzero frame count, one pixel per cell per
/// frame, and a frame time whose bit pattern is positive — re-parsing those
/// bytes yields the same palette, pixels and dimensions, with inline raw
/// colors.
#[verifier::external_body]
pub(crate) fn encode_animated(img: &ici_files::animated::AnimatedIndexedImage) -> (r: Result<
    Vec<u8>,
    String,
>)
    ensures
        match r {
            Ok(b) => b@ == anim_encoding(*img) && ((1 <= anim_palette(*img).len() <= 255
                && anim_width(*img) > 0 && anim_height(*img) > 0 && anim_frame_count(*img) > 0
                && f64_bits_positive(anim_frame_time_bits(*img)) && anim_pixels(*img).len()
                == anim_width(*img) as int * anim_height(*img) as int * anim_frame_count(
                *img,
            ) as int) ==> (animated_parse(b@) matches Ok(p) && p.0 == anim_palette(*img) && p.1
                == anim_pixels(*img) && p.2 is RawColors && p.3 == (
            anim_width(*img),
            anim_height(*img),
            ))),
            Err(_) => false,
        },
{
    img.to_file_contents(&ici_files::palette::FilePalette::Colors).map_err(|e| e.to_string())
}

/// Relies on `IndexedImage::new`: builds a static image from its parts,
/// succeeding exactly when both dimensions are nonzero, the palette is
/// nonempty, and the pixel count matches the dimensions. The constructor
/// records the maximum pixel value as the image's highest pixel index.
#[verifier::external_body]
pub(crate) fn make_static_image(width: u8, height: u8, pal: &Vec<Color>, pixels: &Vec<u8>) -> (r:
    Result<ici_files::image::IndexedImage, String>)
    ensures
        r is Ok <==> (0 < width && 0 < height && 0 < pal@.len() && pixels@.len() == width as int
            * height as int),
        r matches Ok(img) ==> image_palette(img) == pal@ && image_pixels(img) == pixels@
            && image_width(img) == width && image_height(img) == height && image_min_palette(
            img,
        ) == highest_index(pixels@),
{
    let colors: Vec<ici_files::color::Color> = pal.iter().map(
        |c| ici_files::color::Color::new(c.r, c.g, c.b, c.a),
    ).collect();
    ici_files::image::IndexedImage::new(width, height, colors, pixels.clone()).map_err(
        |e| e.to_string(),
    )
}

/// Relies on `JascPalette::from_file_contents`: parses a swatch file's text
/// into its ordered colors. The parse depends on the text alone.
#[verifier::external_body]
pub(crate) fn parse_swatch_text(text: &str) -> (r: Result<Vec<Color>, String>)
    ensures
        match r {
            Ok(cs) => swatch_parse(text@) matches Ok(s) && s == cs@,
            Err(e) => swatch_parse(text@) matches Err(t) && t == e@,
        },
{
    match ici_files::jasc_palette::JascPalette::from_file_contents(text) {
        Ok(p) => Ok(
            p.colors.iter().map(|c| Color { r: c.r, g: c.g, b: c.b, a: c.a }).collect(),
        ),
        Err(e) => Err(e.to_string()),
    }
}

/// Relies on `JascPalette::to_file_contents`: serializes ordered colors to
/// a swatch file's text. The text depends on the colors alone.
#[verifier::external_body]
pub(crate) fn swatch_file_text(colors: &Vec<Color>) -> (r: String)
    ensures
        r@ == swatch_encoding(colors@),
{
    let cs: Vec<ici_files::color::Color> = colors.iter().map(
        |c| ici_files::color::Color::new(c.r, c.g, c.b, c.a),
    ).collect();
    ici_files::jasc_palette::JascPalette::new(cs).to_file_contents()
}

} // verus!
