//! The color quantizer: turns a truecolor pixel grid into a deduplicated
//! palette plus an index buffer, under hard size constraints.
//!
//! Quantization never approximates: a grid with too many distinct colors or
//! a dimension of 256 or more is rejected. The palette lists the distinct
//! colors in first-occurrence order under a row-major scan, so the output is
//! reproducible for the same input.

use vstd::prelude::*;
use crate::color::Color;
use crate::error::ToolError;
use crate::palette::{is_palette, MAX_PALETTE_LEN};

verus! {

/// A truecolor pixel grid: `width * height` colors in row-major order.
pub struct PixelGrid {
    pub width: usize,
    pub height: usize,
    pub pixels: Vec<Color>,
}

impl PixelGrid {
    /// The grid holds exactly one color per cell.
    pub open spec fn wf(self) -> bool {
        self.pixels@.len() == self.width * self.height
    }
}

/// The distinct colors of `s` in first-occurrence order: the palette that
/// quantization produces for a grid scanned row-major.
pub open spec fn distinct_colors(s: Seq<Color>) -> Seq<Color>
    decreases s.len(),
{
    if s.len() == 0 {
        Seq::empty()
    } else {
        let rest = distinct_colors(s.drop_last());
        if rest.contains(s.last()) {
            rest
        } else {
            rest.push(s.last())
        }
    }
}

/// `distinct_colors` lists each color of `s` exactly once: it has no
/// duplicates, is no longer than `s`, and holds exactly the colors of `s`.
pub proof fn lemma_distinct_colors_props(s: Seq<Color>)
    ensures
        distinct_colors(s).no_duplicates(),
        distinct_colors(s).len() <= s.len(),
        forall|c: Color| distinct_colors(s).contains(c) <==> s.contains(c),
    decreases s.len(),
{
    if s.len() == 0 {
        assert(forall|c: Color| !s.contains(c));
    } else {
        let rest = s.drop_last();
        let last = s.last();
        lemma_distinct_colors_props(rest);
        assert forall|c: Color| s.contains(c) <==> rest.contains(c) || c == last by {
            if s.contains(c) {
                let i = choose|i: int| 0 <= i < s.len() && s[i] == c;
                if i < s.len() - 1 {
                    assert(rest[i] == c);
                    assert(rest.contains(c));
                }
            }
            if rest.contains(c) {
                let i = choose|i: int| 0 <= i < rest.len() && rest[i] == c;
                assert(s[i] == c);
                assert(s.contains(c));
            }
            if c == last {
                assert(s[s.len() - 1] == c);
                assert(s.contains(c));
            }
        }
        let d = distinct_colors(s);
        let dr = distinct_colors(rest);
        if !dr.contains(last) {
            assert(d == dr.push(last));
            assert forall|i: int, j: int|
                0 <= i < d.len() && 0 <= j < d.len() && i != j implies d[i] != d[j] by {
                if i < d.len() - 1 && j < d.len() - 1 {
                    assert(d[i] == dr[i] && d[j] == dr[j]);
                } else if i == d.len() - 1 {
                    assert(d[j] == dr[j]);
                    assert(dr.contains(dr[j]));
                } else {
                    assert(d[i] == dr[i]);
                    assert(dr.contains(dr[i]));
                }
            }
            assert forall|c: Color| d.contains(c) <==> dr.contains(c) || c == last by {
                if d.contains(c) {
                    let i = choose|i: int| 0 <= i < d.len() && d[i] == c;
                    if i < d.len() - 1 {
                        assert(dr[i] == c);
                        assert(dr.contains(c));
                    }
                }
                if dr.contains(c) {
                    let i = choose|i: int| 0 <= i < dr.len() && dr[i] == c;
                    assert(d[i] == c);
                    assert(d.contains(c));
                }
                if c == last {
                    assert(d[d.len() - 1] == c);
                    assert(d.contains(c));
                }
            }
        }
    }
}

/// Law: the quantizer's palette has exactly one entry per distinct color of
/// the pixel sequence; its length is the cardinality of the set of colors
/// that occur.
pub proof fn lemma_palette_len_is_distinct_count(pixels: Seq<Color>)
    ensures
        distinct_colors(pixels).len() == pixels.to_set().len(),
{
    lemma_distinct_colors_props(pixels);
    let d = distinct_colors(pixels);
    assert(d.to_set() =~= pixels.to_set());
    d.unique_seq_to_set();
}

/// Whether `haystack` holds `c`, by linear scan.
fn palette_contains(haystack: &Vec<Color>, c: Color) -> (b: bool)
    ensures
        b == haystack@.contains(c),
{
    let mut i: usize = 0;
    while i < haystack.len()
        invariant
            i <= haystack@.len(),
            forall|j: int| 0 <= j < i ==> haystack@[j] != c,
        decreases haystack@.len() - i,
    {
        if haystack[i] == c {
            assert(haystack@.contains(c));
            return true;
        }
        i += 1;
    }
    assert(forall|j: int| 0 <= j < haystack@.len() ==> haystack@[j] != c);
    false
}

/// The position of `c` in `palette`, which must hold it.
fn color_index(palette: &Vec<Color>, c: Color) -> (i: usize)
    requires
        palette@.contains(c),
    ensures
        i < palette@.len(),
        palette@[i as int] == c,
{
    let mut i: usize = 0;
    while i < palette.len()
        invariant
            i <= palette@.len(),
            palette@.contains(c),
            forall|j: int| 0 <= j < i ==> palette@[j] != c,
        decreases palette@.len() - i,
    {
        if palette[i] == c {
            return i;
        }
        i += 1;
    }
    proof {
        let j = choose|j: int| 0 <= j < palette@.len() && palette@[j] == c;
        assert(false);
    }
    0
}

/// Collects the distinct colors of `pixels` in first-occurrence order.
fn build_palette(pixels: &Vec<Color>) -> (pal: Vec<Color>)
    ensures
        pal@ == distinct_colors(pixels@),
{
    let mut pal: Vec<Color> = Vec::new();
    let mut i: usize = 0;
    assert(pixels@.take(0) =~= Seq::<Color>::empty());
    while i < pixels.len()
        invariant
            i <= pixels@.len(),
            pal@ == distinct_colors(pixels@.take(i as int)),
        decreases pixels@.len() - i,
    {
        let c = pixels[i];
        proof {
            assert(pixels@.take(i as int + 1).drop_last() =~= pixels@.take(i as int));
            assert(pixels@.take(i as int + 1).last() == c);
        }
        if !palette_contains(&pal, c) {
            pal.push(c);
        }
        i += 1;
    }
    assert(pixels@.take(pixels@.len() as int) =~= pixels@);
    pal
}

/// Converts a truecolor grid into a deduplicated palette and an index
/// buffer.
///
/// Fails with `ImageTooLarge` when either dimension is 256 or more, and with
/// `TooManyColors` when the grid holds 256 or more distinct colors; it never
/// approximates. On success the palette lists the distinct colors in
/// first-occurrence order and every index resolves back to the original
/// pixel.
pub fn quantize(grid: &PixelGrid) -> (r: Result<(Vec<Color>, Vec<u8>), ToolError>)
    requires
        grid.wf(),
    ensures
        match r {
            Ok((palette, indices)) => {
                &&& grid.width < 256 && grid.height < 256
                &&& palette@ == distinct_colors(grid.pixels@)
                &&& is_palette(palette@)
                &&& indices@.len() == grid.pixels@.len()
                &&& forall|i: int| #![trigger indices@[i]] 0 <= i < indices@.len() ==>
                        indices@[i] < palette@.len()
                        && palette@[indices@[i] as int] == grid.pixels@[i]
            },
            Err(ToolError::ImageTooLarge(w, h)) => {
                &&& grid.width >= 256 || grid.height >= 256
                &&& w == grid.width && h == grid.height
            },
            Err(ToolError::TooManyColors(n)) => {
                &&& grid.width < 256 && grid.height < 256
                &&& n == distinct_colors(grid.pixels@).len()
                &&& n > MAX_PALETTE_LEN
            },
            Err(_) => false,
        },
{
    if grid.width >= 256 || grid.height >= 256 {
        return Err(ToolError::ImageTooLarge(grid.width, grid.height));
    }
    let palette = build_palette(&grid.pixels);
    proof {
        lemma_distinct_colors_props(grid.pixels@);
    }
    if palette.len() > MAX_PALETTE_LEN {
        return Err(ToolError::TooManyColors(palette.len()));
    }
    let mut indices: Vec<u8> = Vec::new();
    let mut i: usize = 0;
    while i < grid.pixels.len()
        invariant
            grid.wf(),
            palette@ == distinct_colors(grid.pixels@),
            palette@.len() <= MAX_PALETTE_LEN,
            forall|c: Color| palette@.contains(c) <==> grid.pixels@.contains(c),
            i <= grid.pixels@.len(),
            indices@.len() == i,
            forall|j: int| #![trigger indices@[j]] 0 <= j < i ==>
                indices@[j] < palette@.len()
                && palette@[indices@[j] as int] == grid.pixels@[j],
        decreases grid.pixels@.len() - i,
    {
        let c = grid.pixels[i];
        assert(grid.pixels@.contains(c));
        let idx: usize = color_index(&palette, c);
        assert(idx < 256);
        let idx8: u8 = idx as u8;
        assert(idx8 as int == idx as int);
        let ghost prev = indices@;
        indices.push(idx8);
        proof {
            assert(indices@ == prev.push(idx8));
            assert forall|j: int| 0 <= j < i + 1 implies indices@[j] < palette@.len()
                && palette@[indices@[j] as int] == grid.pixels@[j] by {
                if j == i {
                    assert(indices@[j] == idx8);
                    assert(indices@[j] as int == idx as int);
                    assert((idx as int) < palette@.len());
                    assert(palette@[idx as int] == c);
                    assert(grid.pixels@[j] == c);
                } else {
                    assert(indices@[j] == prev[j]);
                    assert(prev[j] < palette@.len());
                    assert(palette@[prev[j] as int] == grid.pixels@[j]);
                }
            }
        }
        i += 1;
    }
    Ok((palette, indices))
}

} // verus!
