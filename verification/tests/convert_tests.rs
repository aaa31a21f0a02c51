use ici_files::image::IndexedImage;
use ici_tool::color::Color;
use ici_tool::convert::convert_grid;
use ici_tool::error::ToolError;
use ici_tool::quantize::PixelGrid;

#[test]
fn convert_grid_serializes_quantized_image() {
    let a = Color::new(10, 0, 0, 255);
    let b = Color::new(0, 20, 0, 255);
    let c = Color::new(0, 0, 30, 255);
    let grid = PixelGrid { width: 3, height: 2, pixels: vec![a, b, a, c, b, a] };
    let bytes = convert_grid(&grid).unwrap();
    let (img, pal) = IndexedImage::from_file_contents(&bytes).unwrap();
    assert_eq!(pal, ici_files::palette::FilePalette::Colors);
    assert_eq!(img.width(), 3);
    assert_eq!(img.height(), 2);
    assert_eq!(img.get_pixels(), &[0, 1, 0, 2, 1, 0]);
    let expected: Vec<ici_files::color::Color> = [a, b, c]
        .iter()
        .map(|c| ici_files::color::Color::new(c.r, c.g, c.b, c.a))
        .collect();
    assert_eq!(img.get_palette(), &expected[..]);
}

#[test]
fn convert_grid_rejects_oversized_and_overfull_grids() {
    let tall = PixelGrid { width: 1, height: 256, pixels: vec![Color::new(0, 0, 0, 0); 256] };
    assert_eq!(convert_grid(&tall), Err(ToolError::ImageTooLarge(1, 256)));
    let mut pixels = Vec::new();
    for r in 0..16u8 {
        for g in 0..16u8 {
            pixels.push(Color::new(r, g, 0, 255));
        }
    }
    let full = PixelGrid { width: 16, height: 16, pixels };
    assert_eq!(convert_grid(&full), Err(ToolError::TooManyColors(256)));
}

#[test]
fn convert_grid_rejects_empty_grid() {
    let empty = PixelGrid { width: 0, height: 0, pixels: vec![] };
    match convert_grid(&empty) {
        Err(ToolError::UnderlyingCodecError(_)) => {}
        other => panic!("unexpected outcome: {other:?}"),
    }
}

#[test]
fn convert_grid_round_trips_through_loader() {
    let a = Color::new(200, 100, 50, 255);
    let grid = PixelGrid { width: 2, height: 2, pixels: vec![a, a, a, a] };
    let bytes = convert_grid(&grid).unwrap();
    let palette = ici_tool::transplant::extract(&bytes).unwrap();
    assert_eq!(palette, vec![a]);
}
