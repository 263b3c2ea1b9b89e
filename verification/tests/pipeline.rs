use image_cpr::buffer::ImageBuffer;
use image_cpr::codec::{encode_image, ImgFormat};
use image_cpr::errors::{PipelineError, RectKind};
use image_cpr::geometry::{Rect, TargetSize};
use image_cpr::pipeline::{transform, PipelineRequest, WatermarkSpec};

fn gradient_image(w: u32, h: u32) -> ImageBuffer {
    let mut data: Vec<u8> = Vec::new();
    for y in 0..h {
        for x in 0..w {
            data.push((x % 256) as u8);
            data.push((y % 256) as u8);
            data.push(((x + y) % 256) as u8);
            data.push(255);
        }
    }
    ImageBuffer {
        width: w,
        height: h,
        data,
    }
}

fn png_bytes_of(img: &ImageBuffer) -> Vec<u8> {
    encode_image(img, ImgFormat::Png, None).unwrap()
}

fn plain_request(input: &str) -> PipelineRequest {
    PipelineRequest {
        input_format: input.to_string(),
        crop: None,
        target_size: None,
        watermark: None,
        output_format: None,
        quality: None,
    }
}

fn decoded_rgba(bytes: &[u8]) -> image::RgbaImage {
    image::load_from_memory(bytes).unwrap().to_rgba8()
}

#[test]
fn scenario_crop_to_png() {
    let img = gradient_image(100, 100);
    let input = png_bytes_of(&img);
    let mut request = plain_request("png");
    request.crop = Some(Rect {
        x: 10,
        y: 10,
        width: 50,
        height: 50,
    });
    request.output_format = Some("png".to_string());
    let out = transform(&input, &request).unwrap();
    let decoded = decoded_rgba(&out);
    assert_eq!(decoded.width(), 50);
    assert_eq!(decoded.height(), 50);
}

#[test]
fn scenario_resize_to_jpeg_with_quality() {
    let img = gradient_image(100, 100);
    let input = png_bytes_of(&img);
    let mut request = plain_request("png");
    request.target_size = Some(TargetSize {
        width: 200,
        height: 200,
    });
    request.output_format = Some("jpeg".to_string());
    request.quality = Some(90);
    let out = transform(&input, &request).unwrap();
    let decoded = decoded_rgba(&out);
    assert_eq!(decoded.width(), 200);
    assert_eq!(decoded.height(), 200);
}

#[test]
fn scenario_crop_out_of_bounds() {
    let img = gradient_image(100, 100);
    let input = png_bytes_of(&img);
    let mut request = plain_request("png");
    request.crop = Some(Rect {
        x: 60,
        y: 60,
        width: 50,
        height: 50,
    });
    let r = transform(&input, &request);
    assert!(matches!(r, Err(PipelineError::OutOfBounds(RectKind::Crop, _))));
}

#[test]
fn scenario_opacity_out_of_range_fails_before_decoding() {
    assert!(matches!(
        WatermarkSpec::new(Vec::new(), Rect { x: 0, y: 0, width: 1, height: 1 }, 150, false),
        Err(PipelineError::InvalidParameter)
    ));
    // bytes that no codec accepts: if any decode were attempted, the error
    // would be a DecodeError, not InvalidParameter
    let img = gradient_image(10, 10);
    let input = png_bytes_of(&img);
    let mut request = plain_request("png");
    request.watermark = Some(WatermarkSpec {
        source_bytes: vec![0, 1, 2, 3],
        placement: Rect {
            x: 0,
            y: 0,
            width: 2,
            height: 2,
        },
        opacity_percent: 150,
        use_source_alpha: false,
    });
    let r = transform(&input, &request);
    assert!(matches!(r, Err(PipelineError::InvalidParameter)));
}

#[test]
fn png_round_trip_preserves_pixels() {
    let img = gradient_image(13, 9);
    let out = transform(&png_bytes_of(&img), &plain_request("png")).unwrap();
    let decoded = decoded_rgba(&out);
    assert_eq!(decoded.width(), 13);
    assert_eq!(decoded.height(), 9);
    assert_eq!(decoded.into_raw(), img.data);
}

#[test]
fn webp_lossless_round_trip_preserves_pixels() {
    let img = gradient_image(13, 9);
    let mut request = plain_request("png");
    request.output_format = Some("webp".to_string());
    let out = transform(&png_bytes_of(&img), &request).unwrap();
    let decoded = image::load_from_memory_with_format(&out, image::ImageFormat::WebP)
        .unwrap()
        .to_rgba8();
    assert_eq!(decoded.into_raw(), img.data);
}

#[test]
fn jpeg_round_trip_preserves_dimensions() {
    let img = gradient_image(13, 9);
    let mut request = plain_request("png");
    request.output_format = Some("jpeg".to_string());
    let out = transform(&png_bytes_of(&img), &request).unwrap();
    let decoded = image::load_from_memory_with_format(&out, image::ImageFormat::Jpeg)
        .unwrap()
        .to_rgba8();
    assert_eq!(decoded.width(), 13);
    assert_eq!(decoded.height(), 9);
}

#[test]
fn output_format_defaults_to_input_format() {
    let img = gradient_image(6, 6);
    let out = transform(&png_bytes_of(&img), &plain_request("png")).unwrap();
    assert_eq!(image::guess_format(&out).unwrap(), image::ImageFormat::Png);
}

#[test]
fn jpeg_quality_defaults_when_absent() {
    let img = gradient_image(20, 20);
    let mut request = plain_request("png");
    request.output_format = Some("jpeg".to_string());
    let out = transform(&png_bytes_of(&img), &request).unwrap();
    let decoded = decoded_rgba(&out);
    assert_eq!(decoded.width(), 20);
    assert_eq!(decoded.height(), 20);
}

#[test]
fn invalid_input_format_tag_fails() {
    let r = transform(&[1, 2, 3], &plain_request("bmp"));
    assert!(matches!(r, Err(PipelineError::InvalidFormat)));
}

#[test]
fn invalid_output_format_tag_fails() {
    let img = gradient_image(4, 4);
    let mut request = plain_request("png");
    request.output_format = Some("tiff".to_string());
    let r = transform(&png_bytes_of(&img), &request);
    assert!(matches!(r, Err(PipelineError::InvalidFormat)));
}

#[test]
fn corrupt_input_is_a_decode_error() {
    let r = transform(&[0x89, 0x50, 0x4e, 0x47, 0, 0, 0, 0], &plain_request("png"));
    assert!(matches!(r, Err(PipelineError::DecodeError(_))));
}

#[test]
fn corrupt_watermark_is_a_decode_error() {
    let img = gradient_image(10, 10);
    let input = png_bytes_of(&img);
    let mut request = plain_request("png");
    request.watermark = Some(WatermarkSpec {
        source_bytes: vec![9, 9, 9, 9, 9],
        placement: Rect {
            x: 0,
            y: 0,
            width: 2,
            height: 2,
        },
        opacity_percent: 50,
        use_source_alpha: false,
    });
    let r = transform(&input, &request);
    assert!(matches!(r, Err(PipelineError::DecodeError(_))));
}

#[test]
fn watermark_placement_out_of_bounds_through_pipeline() {
    let img = gradient_image(100, 100);
    let input = png_bytes_of(&img);
    let wm = gradient_image(10, 10);
    let mut request = plain_request("png");
    request.watermark = Some(WatermarkSpec {
        source_bytes: png_bytes_of(&wm),
        placement: Rect {
            x: 60,
            y: 60,
            width: 50,
            height: 50,
        },
        opacity_percent: 80,
        use_source_alpha: false,
    });
    let r = transform(&input, &request);
    assert!(matches!(
        r,
        Err(PipelineError::OutOfBounds(RectKind::Watermark, _))
    ));
}

#[test]
fn full_pipeline_crop_resize_watermark() {
    let img = gradient_image(64, 64);
    let input = png_bytes_of(&img);
    let wm = gradient_image(8, 8);
    let mut request = plain_request("png");
    request.crop = Some(Rect {
        x: 4,
        y: 4,
        width: 32,
        height: 32,
    });
    request.target_size = Some(TargetSize {
        width: 48,
        height: 48,
    });
    request.watermark = Some(WatermarkSpec {
        source_bytes: png_bytes_of(&wm),
        placement: Rect {
            x: 8,
            y: 8,
            width: 16,
            height: 16,
        },
        opacity_percent: 75,
        use_source_alpha: false,
    });
    request.output_format = Some("png".to_string());
    let out = transform(&input, &request).unwrap();
    let decoded = decoded_rgba(&out);
    assert_eq!(decoded.width(), 48);
    assert_eq!(decoded.height(), 48);
}
