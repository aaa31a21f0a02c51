//! The palette transplanter: extracts a palette from an indexed-image file
//! and applies a palette positionally onto loaded images or whole files,
//! enforcing the matching-length invariant, one target at a time.

use vstd::prelude::*;
use crate::codec::{
    anim_frame_count, anim_frame_time_bits, animated_palette_colors, bytes_codec_safe,
    encode_animated, encode_static, highest_index, static_palette_colors,
};
use crate::color::Color;
use crate::error::ToolError;
use crate::loader::{
    load, malformed_file_message, probe, variant_encoding, variant_height, variant_min_palette,
    variant_palette, variant_pixels, variant_width, IndexedImageVariant,
};
use crate::palette::PaletteMode;

verus! {

/// Loads `bytes` with palette validation and returns the embedded palette
/// unchanged, in its stored order.
pub fn extract(bytes: &Vec<u8>) -> (r: Result<Vec<Color>, ToolError>)
    ensures
        match r {
            Ok(pal) => {
                &&& bytes_codec_safe(bytes@)
                &&& probe(bytes@) matches Ok(p) && p.0 == pal@ && p.2 is RawColors
                &&& pal@.len() >= 1
            },
            Err(ToolError::UnsupportedPaletteKind(m)) => {
                &&& !(m is RawColors)
                &&& probe(bytes@) matches Ok(p) && p.2 == m
            },
            Err(ToolError::UnderlyingCodecError(m)) => {
                ||| (!bytes_codec_safe(bytes@) && m@ == malformed_file_message())
                ||| (probe(bytes@) matches Err(t) && m@ == t)
            },
            Err(_) => false,
        },
{
    let loaded = match load(bytes, true) {
        Ok(x) => x,
        Err(e) => {
            return Err(e);
        },
    };
    match &loaded.0 {
        IndexedImageVariant::Static(img) => Ok(static_palette_colors(img)),
        IndexedImageVariant::Animated(img) => Ok(animated_palette_colors(img)),
    }
}

/// Replaces a loaded image's palette positionally with `pal`.
///
/// The replacement must have exactly the length of the palette the image
/// holds; a mismatch fails with `PaletteSizeMismatch(expected, actual)` —
/// the replacement's length against the image's — and leaves the image
/// untouched. The codec refuses a matching replacement only when it is
/// shorter than the image's highest pixel index; that surfaces as
/// `UnderlyingCodecError`, again with the image untouched. Applying the
/// palette an image already holds is a no-op on palette and pixel data.
pub fn apply_palette(v: &mut IndexedImageVariant, pal: &Vec<Color>) -> (r: Result<(), ToolError>)
    requires
        variant_palette(*old(v)).len() >= 1,
    ensures
        match r {
            Ok(()) => {
                &&& pal@.len() == variant_palette(*old(v)).len()
                &&& pal@.len() >= variant_min_palette(*old(v))
                &&& variant_palette(*final(v)) == pal@
                &&& variant_pixels(*final(v)) == variant_pixels(*old(v))
                &&& variant_min_palette(*final(v)) == variant_min_palette(*old(v))
                &&& variant_width(*final(v)) == variant_width(*old(v))
                &&& variant_height(*final(v)) == variant_height(*old(v))
                &&& (*final(v) is Static <==> *old(v) is Static)
                &&& match (*old(v), *final(v)) {
                    (
                        IndexedImageVariant::Animated(before),
                        IndexedImageVariant::Animated(after),
                    ) => anim_frame_count(after) == anim_frame_count(before)
                        && anim_frame_time_bits(after) == anim_frame_time_bits(before),
                    _ => true,
                }
            },
            Err(ToolError::PaletteSizeMismatch(expected, actual)) => {
                &&& expected == pal@.len()
                &&& actual == variant_palette(*old(v)).len()
                &&& pal@.len() != variant_palette(*old(v)).len()
                &&& *final(v) == *old(v)
            },
            Err(ToolError::UnderlyingCodecError(_)) => {
                &&& pal@.len() == variant_palette(*old(v)).len()
                &&& pal@.len() < variant_min_palette(*old(v))
                &&& *final(v) == *old(v)
            },
            Err(_) => false,
        },
        pal@ == variant_palette(*old(v)) && pal@.len() >= variant_min_palette(*old(v)) ==> (
        r is Ok && variant_palette(*final(v)) == variant_palette(*old(v)) && variant_pixels(
            *final(v),
        ) == variant_pixels(*old(v))),
{
    let current = match &*v {
        IndexedImageVariant::Static(img) => static_palette_colors(img),
        IndexedImageVariant::Animated(img) => animated_palette_colors(img),
    };
    if pal.len() != current.len() {
        return Err(ToolError::PaletteSizeMismatch(pal.len(), current.len()));
    }
    let set_result = match v {
        IndexedImageVariant::Static(img) => crate::codec::static_set_palette(img, pal),
        IndexedImageVariant::Animated(img) => crate::codec::animated_set_palette(img, pal),
    };
    match set_result {
        Ok(()) => Ok(()),
        Err(e) => Err(ToolError::UnderlyingCodecError(e)),
    }
}

/// Law (round trip): transplanting a file's own palette back onto that
/// same file can never report a size mismatch — the extracted palette has
/// exactly the length the transplant expects. Together with
/// `apply_palette`'s contract, applying a palette equal to the one an
/// image holds leaves both its palette and its pixel data unchanged,
/// provided the stored palette covers the image's own pixel indices.
pub proof fn lemma_extract_then_set_sizes_match(b: Seq<u8>, pal: Seq<Color>)
    requires
        probe(b) matches Ok(p) && p.0 == pal,
    ensures
        probe(b) matches Ok(p) && pal.len() == p.0.len(),
{
}

/// What applying `pal` to the file bytes `b` yields: new file bytes that
/// encode an image holding `pal` and the original pixel data and
/// dimensions, or the error naming why the target was left alone. Success
/// is owed whenever the target parses, the lengths match, and `pal` is no
/// shorter than the target's highest pixel index: every error case
/// excludes that situation.
pub open spec fn assign_outcome(b: Seq<u8>, pal: Seq<Color>, out: Result<Vec<u8>, ToolError>) -> bool {
    match out {
        Ok(newb) => {
            &&& bytes_codec_safe(b)
            &&& probe(b) matches Ok(p) && pal.len() == p.0.len() && pal.len() >= highest_index(
                p.1,
            )
            &&& exists|v: IndexedImageVariant|
                {
                    &&& #[trigger] variant_palette(v) == pal
                    &&& (probe(b) matches Ok(p) && variant_pixels(v) == p.1 && variant_width(v)
                        == p.3.0 && variant_height(v) == p.3.1)
                    &&& newb@ == variant_encoding(v)
                }
        },
        Err(ToolError::PaletteSizeMismatch(expected, actual)) => {
            &&& probe(b) matches Ok(p) && pal.len() != p.0.len() && expected == pal.len()
                && actual == p.0.len()
        },
        Err(ToolError::UnsupportedPaletteKind(_)) => false,
        Err(ToolError::UnderlyingCodecError(m)) => {
            ||| (!bytes_codec_safe(b) && m@ == malformed_file_message())
            ||| (probe(b) matches Err(t) && m@ == t)
            ||| (probe(b) matches Ok(p) && pal.len() == p.0.len() && pal.len() < highest_index(
                p.1,
            ))
        },
        Err(_) => false,
    }
}

/// Applies `pal` to one target file's bytes: loads without palette
/// validation, requires the palette lengths to match, replaces the palette
/// positionally, and re-serializes. The target's bytes are never modified;
/// a failing target simply yields no new bytes.
pub fn assign_palette(bytes: &Vec<u8>, pal: &Vec<Color>) -> (r: Result<Vec<u8>, ToolError>)
    ensures
        assign_outcome(bytes@, pal@, r),
{
    let loaded = match load(bytes, false) {
        Ok(x) => x,
        Err(e) => {
            return Err(e);
        },
    };
    let mut variant = loaded.0;
    match apply_palette(&mut variant, pal) {
        Ok(()) => {},
        Err(e) => {
            return Err(e);
        },
    }
    let encoded = match &variant {
        IndexedImageVariant::Static(img) => encode_static(img),
        IndexedImageVariant::Animated(img) => encode_animated(img),
    };
    match encoded {
        Ok(newb) => {
            proof {
                assert(variant_palette(variant) == pal@ && (probe(bytes@) matches Ok(p)
                    && variant_pixels(variant) == p.1 && variant_width(variant) == p.3.0
                    && variant_height(variant) == p.3.1) && newb@ == variant_encoding(variant));
            }
            Ok(newb)
        },
        Err(e) => Err(ToolError::UnderlyingCodecError(e)),
    }
}

/// Applies `pal` to every target independently and in order, never
/// stopping early: the result holds one outcome per target, each the
/// outcome `assign_palette` gives for that target alone.
pub fn set_palettes(pal: &Vec<Color>, targets: &Vec<Vec<u8>>) -> (outs: Vec<
    Result<Vec<u8>, ToolError>,
>)
    ensures
        outs@.len() == targets@.len(),
        forall|i: int| #![trigger outs@[i]] 0 <= i < outs@.len() ==> assign_outcome(
            targets@[i]@,
            pal@,
            outs@[i],
        ),
{
    let mut outs: Vec<Result<Vec<u8>, ToolError>> = Vec::new();
    let mut i: usize = 0;
    while i < targets.len()
        invariant
            i <= targets@.len(),
            outs@.len() == i,
            forall|j: int| #![trigger outs@[j]] 0 <= j < i ==> assign_outcome(
                targets@[j]@,
                pal@,
                outs@[j],
            ),
        decreases targets@.len() - i,
    {
        let out = assign_palette(&targets[i], pal);
        outs.push(out);
        i += 1;
    }
    outs
}

/// Parses a standalone swatch file's text into its ordered colors; a parse
/// failure surfaces as `UnderlyingCodecError` with the parser's message.
pub fn palette_from_swatch(text: &str) -> (r: Result<Vec<Color>, ToolError>)
    ensures
        match r {
            Ok(cs) => crate::codec::swatch_parse(text@) matches Ok(s) && s == cs@,
            Err(ToolError::UnderlyingCodecError(m)) => crate::codec::swatch_parse(text@) matches Err(
                t,
            ) && t == m@,
            Err(_) => false,
        },
{
    match crate::codec::parse_swatch_text(text) {
        Ok(cs) => Ok(cs),
        Err(e) => Err(ToolError::UnderlyingCodecError(e)),
    }
}

/// Serializes ordered colors to a standalone swatch file's text.
pub fn palette_to_swatch(colors: &Vec<Color>) -> (r: String)
    ensures
        r@ == crate::codec::swatch_encoding(colors@),
{
    crate::codec::swatch_file_text(colors)
}

/// Prepares a loaded image for truecolor rendering.
///
/// With no replacement palette, the image must already embed raw colors;
/// any other mode fails with `UnsupportedPaletteKind` instead of aborting.
/// With a replacement, the mode is irrelevant (the palette is about to be
/// overwritten) and the replacement is applied as `apply_palette` does.
pub fn prepare_for_render(
    v: &mut IndexedImageVariant,
    mode: PaletteMode,
    replacement: Option<Vec<Color>>,
) -> (r: Result<(), ToolError>)
    requires
        variant_palette(*old(v)).len() >= 1,
    ensures
        match r {
            Ok(()) => match replacement {
                None => mode is RawColors && *final(v) == *old(v),
                Some(pal) => {
                    &&& pal@.len() == variant_palette(*old(v)).len()
                    &&& variant_palette(*final(v)) == pal@
                    &&& variant_pixels(*final(v)) == variant_pixels(*old(v))
                    &&& variant_width(*final(v)) == variant_width(*old(v))
                    &&& variant_height(*final(v)) == variant_height(*old(v))
                },
            },
            Err(ToolError::UnsupportedPaletteKind(m)) => {
                &&& replacement is None
                &&& m == mode
                &&& !(mode is RawColors)
                &&& *final(v) == *old(v)
            },
            Err(ToolError::PaletteSizeMismatch(expected, actual)) => {
                &&& replacement matches Some(pal) && expected == pal@.len() && actual
                    == variant_palette(*old(v)).len() && pal@.len() != variant_palette(
                    *old(v),
                ).len()
                &&& *final(v) == *old(v)
            },
            Err(ToolError::UnderlyingCodecError(_)) => {
                &&& replacement matches Some(pal) && pal@.len() == variant_palette(
                    *old(v),
                ).len() && pal@.len() < variant_min_palette(*old(v))
                &&& *final(v) == *old(v)
            },
            Err(_) => false,
        },
{
    match replacement {
        None => match mode {
            PaletteMode::RawColors => Ok(()),
            other => Err(ToolError::UnsupportedPaletteKind(other)),
        },
        Some(pal) => apply_palette(v, &pal),
    }
}

} // verus!
