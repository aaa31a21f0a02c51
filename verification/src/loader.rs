//! The format prober and loader: given raw file bytes, decides whether they
//! encode a static or an animated indexed image, returns a single
//! tagged-variant result, and optionally validates that the embedded
//! palette is self-contained.
//!
//! The bytes are tried as a static image first and as an animated image
//! second. When both parses fail, the two failure messages are compared
//! textually: identical messages surface the static parser's error, and
//! differing messages surface the animated parser's error. That exact
//! tie-break is part of the loader's contract.

use vstd::prelude::*;
use crate::codec::{
    anim_palette, animated_parse, bytes_codec_safe, bytes_codec_safe_check, highest_index,
    image_palette, parse_animated_file, parse_static_file, static_parse,
};
use crate::color::Color;
use crate::error::ToolError;
use crate::palette::PaletteMode;

verus! {

/// A loaded indexed-image file: exactly one of the two container shapes.
#[derive(Debug)]
pub enum IndexedImageVariant {
    Static(ici_files::image::IndexedImage),
    Animated(ici_files::animated::AnimatedIndexedImage),
}

/// The palette a loaded file holds, whichever shape it has.
pub open spec fn variant_palette(v: IndexedImageVariant) -> Seq<Color> {
    match v {
        IndexedImageVariant::Static(img) => image_palette(img),
        IndexedImageVariant::Animated(img) => anim_palette(img),
    }
}

/// The pixel indices a loaded file holds (all frames concatenated for the
/// animated shape).
pub open spec fn variant_pixels(v: IndexedImageVariant) -> Seq<u8> {
    match v {
        IndexedImageVariant::Static(img) => crate::codec::image_pixels(img),
        IndexedImageVariant::Animated(img) => crate::codec::anim_pixels(img),
    }
}

/// The width a loaded file records.
pub open spec fn variant_width(v: IndexedImageVariant) -> u8 {
    match v {
        IndexedImageVariant::Static(img) => crate::codec::image_width(img),
        IndexedImageVariant::Animated(img) => crate::codec::anim_width(img),
    }
}

/// The height a loaded file records.
pub open spec fn variant_height(v: IndexedImageVariant) -> u8 {
    match v {
        IndexedImageVariant::Static(img) => crate::codec::image_height(img),
        IndexedImageVariant::Animated(img) => crate::codec::anim_height(img),
    }
}

/// The smallest palette length a loaded file accepts when its palette is
/// replaced.
pub open spec fn variant_min_palette(v: IndexedImageVariant) -> u8 {
    match v {
        IndexedImageVariant::Static(img) => crate::codec::image_min_palette(img),
        IndexedImageVariant::Animated(img) => crate::codec::anim_min_palette(img),
    }
}

/// The bytes a loaded file serializes to when its palette is written as
/// inline colors.
pub open spec fn variant_encoding(v: IndexedImageVariant) -> Seq<u8> {
    match v {
        IndexedImageVariant::Static(img) => crate::codec::image_encoding(img),
        IndexedImageVariant::Animated(img) => crate::codec::anim_encoding(img),
    }
}

/// What probing `b` yields: the first successful parse's palette, pixels,
/// mode and dimensions, or — when both parses fail — the static parser's
/// message if the two messages are identical and the animated parser's
/// otherwise.
pub open spec fn probe(b: Seq<u8>) -> Result<
    (Seq<Color>, Seq<u8>, PaletteMode, (u8, u8)),
    Seq<char>,
> {
    match static_parse(b) {
        Ok(p) => Ok(p),
        Err(se) => match animated_parse(b) {
            Ok(p) => Ok(p),
            Err(ae) => Err(
                if se == ae {
                    se
                } else {
                    ae
                },
            ),
        },
    }
}

/// The message `load` reports for bytes the codec cannot be handed safely.
pub open spec fn malformed_file_message() -> Seq<char> {
    "indexed image file is malformed"@
}

/// Validates a file's palette embedding mode: only inline raw colors pass.
pub fn check_palette(mode: PaletteMode) -> (r: Result<(), ToolError>)
    ensures
        match r {
            Ok(()) => mode is RawColors,
            Err(ToolError::UnsupportedPaletteKind(m)) => !(mode is RawColors) && m == mode,
            Err(_) => false,
        },
{
    match mode {
        PaletteMode::RawColors => Ok(()),
        other => Err(ToolError::UnsupportedPaletteKind(other)),
    }
}

/// Loads raw bytes as a static or an animated indexed image, together with
/// the file's palette embedding mode.
///
/// Bytes that would drive the codec out of bounds are refused up front with
/// `UnderlyingCodecError` and a fixed message. Otherwise the result follows
/// `probe`: a parse failure of both shapes surfaces the tie-broken message,
/// and, when `validate_palette` is set, a parsed file whose palette is not
/// inline raw colors fails with `UnsupportedPaletteKind`.
pub fn load(bytes: &Vec<u8>, validate_palette: bool) -> (r: Result<
    (IndexedImageVariant, PaletteMode),
    ToolError,
>)
    ensures
        match r {
            Ok((v, mode)) => {
                &&& bytes_codec_safe(bytes@)
                &&& probe(bytes@) matches Ok(p) && p.0 == variant_palette(v) && p.1
                    == variant_pixels(v) && p.2 == mode && p.3 == (
                variant_width(v),
                variant_height(v),
                )
                &&& (v is Static <==> static_parse(bytes@) is Ok)
                &&& variant_palette(v).len() >= 1
                &&& variant_min_palette(v) == highest_index(variant_pixels(v))
                &&& validate_palette ==> mode is RawColors
            },
            Err(ToolError::UnsupportedPaletteKind(m)) => {
                &&& bytes_codec_safe(bytes@)
                &&& validate_palette
                &&& !(m is RawColors)
                &&& probe(bytes@) matches Ok(p) && p.2 == m
            },
            Err(ToolError::UnderlyingCodecError(m)) => {
                ||| (!bytes_codec_safe(bytes@) && m@ == malformed_file_message())
                ||| (bytes_codec_safe(bytes@) && (probe(bytes@) matches Err(t) && m@ == t))
            },
            Err(_) => false,
        },
{
    if !bytes_codec_safe_check(bytes) {
        return Err(
            ToolError::UnderlyingCodecError(String::from_str("indexed image file is malformed")),
        );
    }
    let (variant, mode) = match parse_static_file(bytes) {
        Ok((img, mode)) => (IndexedImageVariant::Static(img), mode),
        Err(static_err) => match parse_animated_file(bytes) {
            Ok((img, mode)) => (IndexedImageVariant::Animated(img), mode),
            Err(anim_err) => {
                return if static_err == anim_err {
                    Err(ToolError::UnderlyingCodecError(static_err))
                } else {
                    Err(ToolError::UnderlyingCodecError(anim_err))
                };
            },
        },
    };
    if validate_palette {
        match &mode {
            PaletteMode::RawColors => {},
            _ => {
                return Err(ToolError::UnsupportedPaletteKind(mode));
            },
        }
    }
    Ok((variant, mode))
}

} // verus!
