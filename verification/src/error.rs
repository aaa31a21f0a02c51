//! The error taxonomy. Every failure of the library is one of these kinds;
//! each operation's contract states exactly which inputs produce which kind.

use vstd::prelude::*;
use crate::palette::PaletteMode;

verus! {

/// A failure of a library operation.
#[derive(Clone, PartialEq, Eq, Debug)]
pub enum ToolError {
    /// A source image dimension is 256 or more; carries `(width, height)`.
    ImageTooLarge(usize, usize),
    /// The source image holds 256 or more distinct colors; carries the count.
    TooManyColors(usize),
    /// A file extension names no supported format; carries the offending
    /// path's characters.
    UnsupportedSourceFormat(Vec<char>),
    /// A loaded file's palette is not self-contained raw color data although
    /// raw colors were required; carries the embedding mode found.
    UnsupportedPaletteKind(PaletteMode),
    /// A palette transplant onto a target whose palette has a different
    /// length; carries `(expected, actual)`: the length the replacement
    /// palette has, and the length the target's palette was found to have.
    PaletteSizeMismatch(usize, usize),
    /// No output path could be derived from the input path.
    InvalidOutputPath,
    /// A decode or encode failure reported by the indexed-image or palette
    /// codec; carries the codec's message.
    UnderlyingCodecError(String),
}

} // verus!
