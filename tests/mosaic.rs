use trimosaic::color::{encode_color, fill_attr, stroke_attr};
use trimosaic::decode::{
    image_from_frame, load_png_rgb, normalize_rgb, pixels_from_rgb, ColorEncoding, ImageError,
    RawImage, SampleDepth,
};
use trimosaic::geometry::{triangle_path, PathOp};
use trimosaic::grid::{compute_grid, floor_sqrt3_times, GridError};
use trimosaic::mosaic::build_mosaic;
use trimosaic::walker::{generate, points_up, sample, sample_x, sample_y, PixelBuffer, RenderMode};

fn two_by_two() -> PixelBuffer {
    let data = vec![
        0xFF, 0x00, 0x00, 0x00, 0xFF, 0x00, // red, green
        0x00, 0x00, 0xFF, 0xFF, 0xFF, 0xFF, // blue, white
    ];
    pixels_from_rgb(2, 2, data).unwrap()
}

fn encode_png(width: u32, height: u32, color: png::ColorType, depth: png::BitDepth, data: &[u8]) -> Vec<u8> {
    let mut out = Vec::new();
    {
        let mut encoder = png::Encoder::new(&mut out, width, height);
        encoder.set_color(color);
        encoder.set_depth(depth);
        let mut writer = encoder.write_header().unwrap();
        writer.write_image_data(data).unwrap();
    }
    out
}

#[test]
fn encode_color_is_upper_hex() {
    assert_eq!(encode_color([0xFF, 0x00, 0x00]), "#FF0000");
    assert_eq!(encode_color([0x0A, 0xBC, 0x01]), "#0ABC01");
    assert_eq!(encode_color([0xFF, 0xFF, 0xFF]), "#FFFFFF");
}

#[test]
fn fill_and_stroke_follow_mode() {
    assert_eq!(fill_attr(Some([0x12, 0x34, 0x56])), "#123456");
    assert_eq!(stroke_attr(Some([0x12, 0x34, 0x56])), "none");
    assert_eq!(fill_attr(None), "none");
    assert_eq!(stroke_attr(None), "#000000");
}

#[test]
fn floor_sqrt3_small_values() {
    assert_eq!(floor_sqrt3_times(0), 0);
    assert_eq!(floor_sqrt3_times(1), 1);
    assert_eq!(floor_sqrt3_times(2), 3);
    assert_eq!(floor_sqrt3_times(30), 51);
    assert_eq!(floor_sqrt3_times(1000), 1732);
    assert_eq!(floor_sqrt3_times(u32::MAX as u64), 7439101571);
}

#[test]
fn square_image_thirty_rows() {
    let g = compute_grid(640, 640, 30).unwrap();
    assert_eq!(g.n_vertical, 30);
    assert_eq!(g.n_horizontal, 51);
    assert_eq!(g.canvas_width(), 51);
    assert_eq!(g.canvas_height(), 30);
}

#[test]
fn wide_image_truncates_before_scaling() {
    // 300 * 10 / 200 = 15, floor(15 * sqrt 3) = 25
    let g = compute_grid(300, 200, 10).unwrap();
    assert_eq!(g.n_horizontal, 25);
}

#[test]
fn grid_rejects_zero_inputs() {
    assert_eq!(compute_grid(0, 10, 10), Err(GridError::InvalidInput));
    assert_eq!(compute_grid(10, 0, 10), Err(GridError::InvalidInput));
    assert_eq!(compute_grid(10, 10, 0), Err(GridError::InvalidInput));
}

#[test]
fn grid_rejects_oversized() {
    assert_eq!(compute_grid(u32::MAX, 1, 2), Err(GridError::TooLarge));
    assert!(compute_grid(u32::MAX, 1, 1).is_ok());
}

#[test]
fn tall_image_may_have_no_columns() {
    let g = compute_grid(1, 100, 10).unwrap();
    assert_eq!(g.n_horizontal, 0);
    let pixels = pixels_from_rgb(1, 100, vec![7u8; 300]).unwrap();
    let records = generate(&pixels, &g, RenderMode::Fill);
    assert_eq!(records.len(), 10);
    assert!(records.iter().all(|r| r.img_x == 0 && r.col == 0));
}

#[test]
fn orientation_alternates() {
    assert!(!points_up(0, 0));
    assert!(points_up(0, 1));
    assert!(points_up(1, 0));
    assert!(!points_up(1, 1));
    for row in 0..6u32 {
        for col in 0..6u64 {
            assert_ne!(points_up(row, col), points_up(row, col + 1));
            assert_ne!(points_up(row, col), points_up(row + 1, col));
        }
    }
}

#[test]
fn triangle_vertices_up_and_down() {
    assert_eq!(
        triangle_path(0, 0, 2, 3, true),
        vec![
            PathOp::MoveTo { x: 0, y: 0 },
            PathOp::LineBy { dx: -2, dy: 3 },
            PathOp::LineBy { dx: 4, dy: 0 },
            PathOp::Close,
        ]
    );
    assert_eq!(
        triangle_path(0, 0, 2, 3, false),
        vec![
            PathOp::MoveTo { x: 0, y: 3 },
            PathOp::LineBy { dx: -2, dy: -3 },
            PathOp::LineBy { dx: 4, dy: 0 },
            PathOp::Close,
        ]
    );
    assert_eq!(triangle_path(5, 7, 1, 1, false)[0], PathOp::MoveTo { x: 5, y: 8 });
}

#[test]
fn sampler_reads_row_major() {
    let p = two_by_two();
    assert_eq!(sample(&p, 0, 0), [0xFF, 0, 0]);
    assert_eq!(sample(&p, 1, 0), [0, 0xFF, 0]);
    assert_eq!(sample(&p, 0, 1), [0, 0, 0xFF]);
    assert_eq!(sample(&p, 1, 1), [0xFF, 0xFF, 0xFF]);
}

#[test]
fn sampling_clamps_last_row_and_column() {
    let g = compute_grid(4, 3, 5).unwrap();
    // 4 * 5 / 3 = 6, floor(6 * sqrt 3) = 10
    assert_eq!(g.n_horizontal, 10);
    assert_eq!(sample_x(10, &g), 3);
    assert_eq!(sample_x(5, &g), 2);
    assert_eq!(sample_x(0, &g), 0);
    assert_eq!(sample_y(4, &g), 2);
    assert_eq!(sample_y(2, &g), 1);
    assert_eq!(sample_y(0, &g), 0);
}

#[test]
fn two_by_two_end_to_end() {
    let p = two_by_two();
    let doc = build_mosaic(&p, 2, RenderMode::Fill).unwrap();
    assert_eq!(doc.grid.n_horizontal, 3);
    assert_eq!(doc.records.len(), 8);
    assert_eq!((doc.grid.canvas_width(), doc.grid.canvas_height()), (3, 2));
    let first = &doc.records[0];
    assert_eq!((first.row, first.col), (0, 0));
    assert!(!first.points_up);
    assert_eq!((first.img_x, first.img_y), (0, 0));
    assert_eq!(first.color, Some([0xFF, 0, 0]));
    assert_eq!(fill_attr(first.color), "#FF0000");
    // row-major order, columns 0..=3
    let cells: Vec<(u32, u64)> = doc.records.iter().map(|r| (r.row, r.col)).collect();
    assert_eq!(cells, vec![(0, 0), (0, 1), (0, 2), (0, 3), (1, 0), (1, 1), (1, 2), (1, 3)]);
    // bottom-right cell clamps onto the white pixel
    let last = &doc.records[7];
    assert_eq!((last.img_x, last.img_y), (1, 1));
    assert_eq!(last.color, Some([0xFF, 0xFF, 0xFF]));
    assert_eq!(doc.records[4].color, Some([0, 0, 0xFF]));
    assert_eq!(
        doc.records[1].path,
        vec![
            PathOp::MoveTo { x: 1, y: 0 },
            PathOp::LineBy { dx: -1, dy: 1 },
            PathOp::LineBy { dx: 2, dy: 0 },
            PathOp::Close,
        ]
    );
}

#[test]
fn outline_mode_has_no_colors() {
    let p = two_by_two();
    let doc = build_mosaic(&p, 3, RenderMode::Outline).unwrap();
    // 2 * 3 / 2 = 3, floor(3 * sqrt 3) = 5
    assert_eq!(doc.records.len(), 3 * 6);
    assert!(doc.records.iter().all(|r| r.color.is_none()));
}

#[test]
fn build_rejects_zero_rows() {
    let p = two_by_two();
    assert_eq!(build_mosaic(&p, 0, RenderMode::Fill).err(), Some(GridError::InvalidInput));
}

#[test]
fn normalize_each_encoding() {
    let eight = SampleDepth::Eight;
    assert_eq!(normalize_rgb(eight, ColorEncoding::Rgb, &vec![1, 2, 3, 4, 5, 6]), Ok(vec![1, 2, 3, 4, 5, 6]));
    assert_eq!(normalize_rgb(eight, ColorEncoding::Rgba, &vec![1, 2, 3, 9, 4, 5, 6, 9]), Ok(vec![1, 2, 3, 4, 5, 6]));
    assert_eq!(normalize_rgb(eight, ColorEncoding::Grayscale, &vec![7, 8]), Ok(vec![7, 7, 7, 8, 8, 8]));
    assert_eq!(normalize_rgb(eight, ColorEncoding::GrayscaleAlpha, &vec![7, 0, 8, 0]), Ok(vec![7, 7, 7, 8, 8, 8]));
    assert_eq!(normalize_rgb(eight, ColorEncoding::Rgba, &vec![1, 2, 3, 9, 4]), Ok(vec![1, 2, 3]));
}

#[test]
fn normalize_rejects_depth_and_palette() {
    assert_eq!(
        normalize_rgb(SampleDepth::Sixteen, ColorEncoding::Rgb, &vec![0; 12]),
        Err(ImageError::UnsupportedBitDepth)
    );
    assert_eq!(
        normalize_rgb(SampleDepth::Four, ColorEncoding::Indexed, &vec![0; 2]),
        Err(ImageError::UnsupportedBitDepth)
    );
    assert_eq!(
        normalize_rgb(SampleDepth::Eight, ColorEncoding::Indexed, &vec![0; 2]),
        Err(ImageError::UnsupportedColorEncoding)
    );
}

#[test]
fn empty_and_mismatched_buffers() {
    assert_eq!(pixels_from_rgb(2, 2, vec![]).err(), Some(ImageError::EmptyImage));
    assert_eq!(pixels_from_rgb(0, 2, vec![1, 2, 3]).err(), Some(ImageError::EmptyImage));
    assert_eq!(pixels_from_rgb(2, 2, vec![1, 2, 3]).err(), Some(ImageError::MalformedImage));
    let raw = RawImage { width: 1, height: 1, depth: SampleDepth::Eight, color: ColorEncoding::Rgba, data: vec![1, 2, 3] };
    assert_eq!(image_from_frame(raw).err(), Some(ImageError::EmptyImage));
}

#[test]
fn frame_to_pixels() {
    let raw = RawImage { width: 2, height: 1, depth: SampleDepth::Eight, color: ColorEncoding::Grayscale, data: vec![10, 20] };
    let p = image_from_frame(raw).unwrap();
    assert_eq!((p.width, p.height), (2, 1));
    assert_eq!(p.data, vec![10, 10, 10, 20, 20, 20]);
}

#[test]
fn png_rgb_decodes() {
    let bytes = encode_png(2, 2, png::ColorType::Rgb, png::BitDepth::Eight, &two_by_two().data);
    let p = load_png_rgb(&bytes).unwrap();
    assert_eq!((p.width, p.height), (2, 2));
    assert_eq!(p.data, two_by_two().data);
}

#[test]
fn png_gray_alpha_decodes() {
    let bytes = encode_png(2, 1, png::ColorType::GrayscaleAlpha, png::BitDepth::Eight, &[5, 255, 6, 0]);
    let p = load_png_rgb(&bytes).unwrap();
    assert_eq!(p.data, vec![5, 5, 5, 6, 6, 6]);
}

#[test]
fn png_sixteen_bit_rejected() {
    let bytes = encode_png(1, 1, png::ColorType::Rgb, png::BitDepth::Sixteen, &[0; 6]);
    assert_eq!(load_png_rgb(&bytes).err(), Some(ImageError::UnsupportedBitDepth));
}

#[test]
fn png_palette_rejected() {
    let mut out = Vec::new();
    {
        let mut encoder = png::Encoder::new(&mut out, 1, 1);
        encoder.set_color(png::ColorType::Indexed);
        encoder.set_depth(png::BitDepth::Eight);
        encoder.set_palette(vec![1u8, 2, 3]);
        let mut writer = encoder.write_header().unwrap();
        writer.write_image_data(&[0]).unwrap();
    }
    assert_eq!(load_png_rgb(&out).err(), Some(ImageError::UnsupportedColorEncoding));
}

#[test]
fn garbage_is_malformed() {
    assert_eq!(load_png_rgb(b"not a png").err(), Some(ImageError::MalformedImage));
    assert_eq!(load_png_rgb(&[]).err(), Some(ImageError::MalformedImage));
}

#[test]
fn png_rgba_drops_alpha() {
    let bytes = encode_png(2, 1, png::ColorType::Rgba, png::BitDepth::Eight, &[1, 2, 3, 255, 4, 5, 6, 0]);
    let p = load_png_rgb(&bytes).unwrap();
    assert_eq!((p.width, p.height), (2, 1));
    assert_eq!(p.data, vec![1, 2, 3, 4, 5, 6]);
}

#[test]
fn png_grayscale_repeats_gray() {
    let bytes = encode_png(1, 2, png::ColorType::Grayscale, png::BitDepth::Eight, &[9, 200]);
    let p = load_png_rgb(&bytes).unwrap();
    assert_eq!((p.width, p.height), (1, 2));
    assert_eq!(p.data, vec![9, 9, 9, 200, 200, 200]);
}

#[test]
fn truncated_png_is_malformed() {
    let bytes = encode_png(2, 2, png::ColorType::Rgb, png::BitDepth::Eight, &two_by_two().data);
    assert_eq!(load_png_rgb(&bytes[..bytes.len() / 2]).err(), Some(ImageError::MalformedImage));
}
