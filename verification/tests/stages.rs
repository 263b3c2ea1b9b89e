use image_cpr::buffer::{apply_crop, ImageBuffer};
use image_cpr::codec::{encode_image, parse_format, ImgFormat};
use image_cpr::errors::{PipelineError, RectKind};
use image_cpr::geometry::{validate_rect, Rect};
use image_cpr::pipeline::apply_watermark;
use image_cpr::resample::apply_resize;

fn gradient_image(w: u32, h: u32) -> ImageBuffer {
    let mut data: Vec<u8> = Vec::new();
    for y in 0..h {
        for x in 0..w {
            data.push((x % 256) as u8);
            data.push((y % 256) as u8);
            data.push(((x + y) % 256) as u8);
            data.push(255);
        }
    }
    ImageBuffer {
        width: w,
        height: h,
        data,
    }
}

fn solid_image(w: u32, h: u32, rgba: [u8; 4]) -> ImageBuffer {
    let mut data: Vec<u8> = Vec::new();
    for _ in 0..(w as usize) * (h as usize) {
        data.extend_from_slice(&rgba);
    }
    ImageBuffer {
        width: w,
        height: h,
        data,
    }
}

fn chan(img: &ImageBuffer, x: u32, y: u32, c: u32) -> u8 {
    img.data[(4 * (y * img.width + x) + c) as usize]
}

#[test]
fn parse_format_accepts_supported_tags() {
    assert!(matches!(parse_format("jpeg"), Ok(ImgFormat::Jpeg)));
    assert!(matches!(parse_format("png"), Ok(ImgFormat::Png)));
    assert!(matches!(parse_format("webp"), Ok(ImgFormat::Webp)));
}

#[test]
fn parse_format_rejects_unknown_tags() {
    assert!(matches!(parse_format("gif"), Err(PipelineError::InvalidFormat)));
    assert!(matches!(parse_format("PNG"), Err(PipelineError::InvalidFormat)));
    assert!(matches!(parse_format(""), Err(PipelineError::InvalidFormat)));
}

#[test]
fn crop_output_dimensions_exact() {
    let img = gradient_image(10, 10);
    let rect = Rect {
        x: 2,
        y: 3,
        width: 5,
        height: 4,
    };
    let out = apply_crop(&img, &rect).unwrap();
    assert_eq!(out.width, 5);
    assert_eq!(out.height, 4);
    assert_eq!(out.data.len(), 4 * 5 * 4);
    for y in 0..4 {
        for x in 0..5 {
            for c in 0..4 {
                assert_eq!(chan(&out, x, y, c), chan(&img, x + 2, y + 3, c));
            }
        }
    }
}

#[test]
fn crop_out_of_bounds_fails_without_mutation() {
    let img = gradient_image(100, 100);
    let before = img.data.clone();
    let rect = Rect {
        x: 60,
        y: 60,
        width: 50,
        height: 50,
    };
    let r = apply_crop(&img, &rect);
    assert!(matches!(r, Err(PipelineError::OutOfBounds(RectKind::Crop, _))));
    assert_eq!(img.data, before);
}

#[test]
fn bounds_check_survives_wraparound() {
    let rect = Rect {
        x: u32::MAX,
        y: 0,
        width: 2,
        height: 1,
    };
    let r = validate_rect(&rect, 100, 100, RectKind::Crop);
    assert!(matches!(r, Err(PipelineError::OutOfBounds(RectKind::Crop, _))));
}

#[test]
fn resize_dimensions_idempotent() {
    let img = gradient_image(10, 10);
    let once = apply_resize(&img, 7, 5);
    assert_eq!(once.width, 7);
    assert_eq!(once.height, 5);
    let twice = apply_resize(&once, 7, 5);
    assert_eq!(twice.width, 7);
    assert_eq!(twice.height, 5);
    assert_eq!(twice.data.len(), 4 * 7 * 5);
}

#[test]
fn resize_to_zero_yields_empty_buffer() {
    let img = gradient_image(10, 10);
    let out = apply_resize(&img, 0, 0);
    assert_eq!(out.width, 0);
    assert_eq!(out.height, 0);
    assert_eq!(out.data.len(), 0);
}

#[test]
fn watermark_opacity_zero_preserves_base() {
    let base = gradient_image(8, 8);
    let wm = solid_image(4, 4, [200, 10, 10, 255]);
    let placement = Rect {
        x: 2,
        y: 2,
        width: 4,
        height: 4,
    };
    let out = apply_watermark(&base, &wm, &placement, 0, false).unwrap();
    assert_eq!(out.data, base.data);
}

#[test]
fn watermark_full_opacity_replaces_colors() {
    let base = solid_image(8, 8, [0, 0, 200, 180]);
    let wm = solid_image(4, 4, [250, 40, 7, 255]);
    let placement = Rect {
        x: 1,
        y: 2,
        width: 4,
        height: 4,
    };
    let out = apply_watermark(&base, &wm, &placement, 100, false).unwrap();
    for y in 2..6 {
        for x in 1..5 {
            assert_eq!(chan(&out, x, y, 0), 250);
            assert_eq!(chan(&out, x, y, 1), 40);
            assert_eq!(chan(&out, x, y, 2), 7);
            // compositing never touches the base's alpha channel
            assert_eq!(chan(&out, x, y, 3), 180);
        }
    }
    // pixels outside the footprint stay untouched
    assert_eq!(chan(&out, 0, 0, 0), 0);
    assert_eq!(chan(&out, 7, 7, 2), 200);
}

#[test]
fn watermark_blend_exact_fixed_point_value() {
    // base 100, watermark 200, watermark alpha 128 used verbatim:
    // (100 * (255 - 128) + 200 * 128) / 255 = 38300 / 255 = 150 (truncated)
    let base = solid_image(2, 2, [100, 100, 100, 255]);
    let wm = solid_image(2, 2, [200, 200, 200, 128]);
    let placement = Rect {
        x: 0,
        y: 0,
        width: 2,
        height: 2,
    };
    let out = apply_watermark(&base, &wm, &placement, 100, true).unwrap();
    assert_eq!(chan(&out, 0, 0, 0), 150);
    assert_eq!(chan(&out, 1, 1, 2), 150);
    assert_eq!(chan(&out, 1, 0, 3), 255);
}

#[test]
fn watermark_out_of_bounds_fails() {
    let base = gradient_image(10, 10);
    let wm = solid_image(4, 4, [1, 2, 3, 255]);
    let placement = Rect {
        x: 8,
        y: 8,
        width: 4,
        height: 4,
    };
    let r = apply_watermark(&base, &wm, &placement, 50, false);
    assert!(matches!(
        r,
        Err(PipelineError::OutOfBounds(RectKind::Watermark, _))
    ));
}

#[test]
fn watermark_is_resized_to_placement() {
    let base = solid_image(8, 8, [0, 0, 255, 255]);
    let wm = solid_image(2, 2, [255, 0, 0, 255]);
    let placement = Rect {
        x: 2,
        y: 2,
        width: 4,
        height: 4,
    };
    let out = apply_watermark(&base, &wm, &placement, 100, false).unwrap();
    // the 2x2 watermark was resampled up to 4x4 and fully replaces the colors
    // there; resampling a solid color stays close to that color
    assert!(chan(&out, 3, 3, 0) > 200);
    assert!(chan(&out, 3, 3, 2) < 50);
    assert_eq!(chan(&out, 0, 0, 2), 255);
}

#[test]
fn encode_zero_area_buffer_is_an_encode_error() {
    let img = solid_image(0, 0, [0, 0, 0, 0]);
    let r = encode_image(&img, ImgFormat::Png, None);
    assert!(matches!(r, Err(PipelineError::EncodeError(_))));
}

#[test]
fn error_messages_name_the_failure() {
    let m = PipelineError::InvalidFormat.message();
    assert_eq!(m.as_str(), "unrecognized format tag");
    let m = PipelineError::OutOfBounds(
        RectKind::Crop,
        Rect {
            x: 60,
            y: 60,
            width: 50,
            height: 50,
        },
    )
    .message();
    assert_eq!(m.as_str(), "crop rectangle exceeds image bounds");
    let m = PipelineError::DecodeError("bad magic".to_string()).message();
    assert_eq!(m.as_str(), "decode failed: bad magic");
}
