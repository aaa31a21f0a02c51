//! Palettes and how indexed-image files embed them.
//!
//! A palette is an ordered sequence of unique colors whose position is the
//! index used by pixel data; it never holds more than 255 entries.

use vstd::prelude::*;
use crate::color::Color;

verus! {

/// The largest number of entries a palette may hold.
pub const MAX_PALETTE_LEN: usize = 255;

/// A well-formed palette: no two entries are equal and the length stays
/// within the 8-bit index budget.
pub open spec fn is_palette(s: Seq<Color>) -> bool {
    &&& s.no_duplicates()
    &&& s.len() <= MAX_PALETTE_LEN
}

/// How an indexed-image file stores its palette. Only `RawColors` carries
/// self-contained color data; the other modes refer elsewhere or to nothing,
/// and are accepted only when the caller skips palette validation.
#[derive(Clone, PartialEq, Eq, Debug)]
pub enum PaletteMode {
    /// The palette colors are stored inline in the file.
    RawColors,
    /// The file refers to an external palette by numeric identifier.
    ReferenceById(u16),
    /// The file refers to an external palette by name.
    ReferenceByName(String),
    /// The file carries no palette information at all.
    NoData,
}

} // verus!
