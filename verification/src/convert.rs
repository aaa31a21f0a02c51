//! The full conversion pipeline: a truecolor pixel grid in, serialized
//! static indexed-image bytes out.

use vstd::prelude::*;
use crate::codec::{
    encode_static, image_encoding, image_height, image_palette, image_pixels, image_width,
    make_static_image,
};
use crate::error::ToolError;
use crate::palette::MAX_PALETTE_LEN;
use crate::quantize::{distinct_colors, lemma_distinct_colors_props, quantize, PixelGrid};

verus! {

/// Quantizes `grid` and serializes the resulting indexed image.
///
/// The size constraints are the quantizer's; in addition the codec cannot
/// represent an image with a zero dimension, which surfaces as
/// `UnderlyingCodecError`. On success the bytes encode an image whose
/// palette is the grid's distinct colors in first-occurrence order and
/// whose every pixel index resolves back to the original pixel.
pub fn convert_grid(grid: &PixelGrid) -> (r: Result<Vec<u8>, ToolError>)
    requires
        grid.wf(),
    ensures
        match r {
            Ok(bytes) => {
                &&& 0 < grid.width < 256 && 0 < grid.height < 256
                &&& distinct_colors(grid.pixels@).len() <= MAX_PALETTE_LEN
                &&& exists|img: ici_files::image::IndexedImage|
                    {
                        &&& #[trigger] image_palette(img) == distinct_colors(grid.pixels@)
                        &&& image_width(img) as int == grid.width as int
                        &&& image_height(img) as int == grid.height as int
                        &&& image_pixels(img).len() == grid.pixels@.len()
                        &&& (forall|j: int| #![trigger image_pixels(img)[j]] 0 <= j < image_pixels(
                            img,
                        ).len() ==> image_pixels(img)[j] < image_palette(img).len()
                            && image_palette(img)[image_pixels(img)[j] as int]
                            == grid.pixels@[j])
                        &&& bytes@ == image_encoding(img)
                    }
            },
            Err(ToolError::ImageTooLarge(w, h)) => {
                &&& grid.width >= 256 || grid.height >= 256
                &&& w == grid.width && h == grid.height
            },
            Err(ToolError::TooManyColors(n)) => {
                &&& grid.width < 256 && grid.height < 256
                &&& n == distinct_colors(grid.pixels@).len()
                &&& n > MAX_PALETTE_LEN
            },
            Err(ToolError::UnderlyingCodecError(_)) => {
                &&& grid.width < 256 && grid.height < 256
                &&& distinct_colors(grid.pixels@).len() <= MAX_PALETTE_LEN
                &&& grid.width == 0 || grid.height == 0
            },
            Err(_) => false,
        },
{
    let quantized = match quantize(grid) {
        Ok(x) => x,
        Err(e) => {
            return Err(e);
        },
    };
    let (palette, indices) = quantized;
    let width8: u8 = grid.width as u8;
    let height8: u8 = grid.height as u8;
    proof {
        assert(grid.width < 256 && grid.height < 256);
        assert(width8 as int == grid.width as int);
        assert(height8 as int == grid.height as int);
        assert(indices@.len() == width8 as int * height8 as int);
        if grid.pixels@.len() > 0 {
            lemma_distinct_colors_props(grid.pixels@);
            assert(grid.pixels@.contains(grid.pixels@[0]));
            assert(distinct_colors(grid.pixels@).contains(grid.pixels@[0]));
            assert(palette@.len() > 0);
        }
        if grid.width > 0 && grid.height > 0 {
            assert(grid.width * grid.height > 0) by (nonlinear_arith)
                requires
                    grid.width > 0,
                    grid.height > 0,
            ;
            assert(grid.pixels@.len() > 0);
        }
    }
    let image = match make_static_image(width8, height8, &palette, &indices) {
        Ok(img) => img,
        Err(e) => {
            return Err(ToolError::UnderlyingCodecError(e));
        },
    };
    match encode_static(&image) {
        Ok(bytes) => {
            proof {
                assert(image_palette(image) == distinct_colors(grid.pixels@) && image_width(
                    image,
                ) as int == grid.width as int && image_height(image) as int == grid.height as int
                    && image_pixels(image).len() == grid.pixels@.len() && (forall|j: int|
                    #![trigger image_pixels(image)[j]]
                    0 <= j < image_pixels(image).len() ==> image_pixels(image)[j] < image_palette(
                        image,
                    ).len() && image_palette(image)[image_pixels(image)[j] as int]
                        == grid.pixels@[j]) && bytes@ == image_encoding(image));
            }
            Ok(bytes)
        },
        Err(e) => Err(ToolError::UnderlyingCodecError(e)),
    }
}

} // verus!
