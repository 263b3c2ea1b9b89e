use vstd::prelude::*;

use crate::buffer::ImageBuffer;
use crate::errors::PipelineError;

verus! {

/// The codecs this pipeline supports. The tag lookup below is the only place
/// a format tag is resolved; an unrecognized tag is a hard error, never a
/// silent fallback.
#[derive(Clone, Copy, Debug)]
pub enum ImgFormat {
    Jpeg,
    Png,
    Webp,
}

/// The string tag names one of the supported codecs.
pub open spec fn valid_tag(tag: Seq<char>) -> bool {
    tag == "jpeg"@ || tag == "png"@ || tag == "webp"@
}

/// The codec a valid tag resolves to; meaningful only where `valid_tag`
/// holds.
pub open spec fn format_of_tag(tag: Seq<char>) -> ImgFormat {
    if tag == "jpeg"@ {
        ImgFormat::Jpeg
    } else if tag == "png"@ {
        ImgFormat::Png
    } else {
        ImgFormat::Webp
    }
}

/// Resolves a lowercase format tag to its codec. The lookup is fixed:
/// exactly the tags `jpeg`, `png` and `webp` are recognized.
pub fn parse_format(tag: &str) -> (r: Result<ImgFormat, PipelineError>)
    ensures
        r is Ok <==> valid_tag(tag@),
        r matches Ok(f) ==> f == format_of_tag(tag@),
        r matches Ok(f) ==> (f is Jpeg <==> tag@ == "jpeg"@),
        r matches Ok(f) ==> (f is Png <==> tag@ == "png"@),
        r matches Ok(f) ==> (f is Webp <==> tag@ == "webp"@),
        r is Err ==> r == Err::<ImgFormat, PipelineError>(PipelineError::InvalidFormat),
{
    proof {
        reveal_strlit("jpeg");
        reveal_strlit("png");
        reveal_strlit("webp");
        assert("jpeg"@ != "png"@ && "png"@ != "webp"@) by {
            assert("jpeg"@.len() == 4 && "png"@.len() == 3 && "webp"@.len() == 4);
        }
        assert("jpeg"@ != "webp"@) by {
            assert("jpeg"@[0] == 'j' && "webp"@[0] == 'w');
        }
    }
    let t: String = tag.to_owned();
    if t == "jpeg".to_owned() {
        Ok(ImgFormat::Jpeg)
    } else if t == "png".to_owned() {
        Ok(ImgFormat::Png)
    } else if t == "webp".to_owned() {
        Ok(ImgFormat::Webp)
    } else {
        Err(PipelineError::InvalidFormat)
    }
}

/// The bytes the JPEG encoder emits for a tightly packed RGBA buffer of the
/// given dimensions at the given quality, after the alpha channel is
/// dropped — or nothing where the encoder rejects the buffer. A function of
/// its arguments alone.
pub uninterp spec fn jpeg_encoding_of(pixels: Seq<u8>, w: int, h: int, quality: u8) -> Option<
    Seq<u8>,
>;

/// The bytes the PNG encoder emits for a tightly packed RGBA buffer of the
/// given dimensions, at the strongest compression level with the Paeth
/// filter heuristic — or nothing where the encoder rejects the buffer. A
/// function of its arguments alone.
pub uninterp spec fn png_encoding_of(pixels: Seq<u8>, w: int, h: int) -> Option<Seq<u8>>;

/// The bytes the lossless WebP encoder emits for a tightly packed RGBA
/// buffer of the given dimensions — or nothing where the encoder rejects
/// the buffer. A function of its arguments alone.
pub uninterp spec fn webp_encoding_of(pixels: Seq<u8>, w: int, h: int) -> Option<Seq<u8>>;

/// What the encode stage yields for the given pixels under the resolved
/// format and quality; the quality reaches only the lossy JPEG path.
pub open spec fn encoded_rgba_of(
    pixels: Seq<u8>,
    w: int,
    h: int,
    format: ImgFormat,
    quality: u8,
) -> Option<Seq<u8>> {
    match format {
        ImgFormat::Jpeg => jpeg_encoding_of(pixels, w, h, quality),
        ImgFormat::Png => png_encoding_of(pixels, w, h),
        ImgFormat::Webp => webp_encoding_of(pixels, w, h),
    }
}

/// Relies on image::codecs::jpeg::JpegEncoder::new_with_quality and
/// ImageBuffer::write_with_encoder: the encoder writes the JPEG serialization
/// of the pixels (alpha dropped by the RGB conversion) into the buffer, or
/// reports its diagnostic; the quality is clamped internally, so no value
/// panics.
#[verifier::external_body]
fn jpeg_encode(img: &ImageBuffer, quality: u8) -> (r: Result<Vec<u8>, String>)
    requires
        img.wf(),
    ensures
        r matches Ok(b) ==> Some(b@) == jpeg_encoding_of(
            img.data@,
            img.width as int,
            img.height as int,
            quality,
        ),
        r is Err ==> jpeg_encoding_of(img.data@, img.width as int, img.height as int, quality)
            is None,
{
    let rgba = image::RgbaImage::from_raw(img.width, img.height, img.data.clone()).unwrap();
    let rgb = image::DynamicImage::ImageRgba8(rgba).into_rgb8();
    let mut buf: Vec<u8> = Vec::new();
    let encoder = image::codecs::jpeg::JpegEncoder::new_with_quality(&mut buf, quality);
    match rgb.write_with_encoder(encoder) {
        Ok(()) => Ok(buf),
        Err(e) => Err(format!("{}", e)),
    }
}

/// Relies on image::codecs::png::PngEncoder::new_with_quality with the
/// strongest compression and the Paeth filter: the encoder writes the PNG
/// serialization of the RGBA pixels into the buffer, or reports its
/// diagnostic.
#[verifier::external_body]
fn png_encode(img: &ImageBuffer) -> (r: Result<Vec<u8>, String>)
    requires
        img.wf(),
    ensures
        r matches Ok(b) ==> Some(b@) == png_encoding_of(
            img.data@,
            img.width as int,
            img.height as int,
        ),
        r is Err ==> png_encoding_of(img.data@, img.width as int, img.height as int) is None,
{
    let rgba = image::RgbaImage::from_raw(img.width, img.height, img.data.clone()).unwrap();
    let mut buf: Vec<u8> = Vec::new();
    let encoder = image::codecs::png::PngEncoder::new_with_quality(
        &mut buf,
        image::codecs::png::CompressionType::Best,
        image::codecs::png::FilterType::Paeth,
    );
    match rgba.write_with_encoder(encoder) {
        Ok(()) => Ok(buf),
        Err(e) => Err(format!("{}", e)),
    }
}

/// Relies on image::codecs::webp::WebPEncoder::new_lossless: the encoder
/// writes the lossless WebP serialization of the RGBA pixels into the
/// buffer, or reports its diagnostic; the buffer length matches the
/// dimensions exactly, so the encoder's length assertion cannot fire.
#[verifier::external_body]
fn webp_encode(img: &ImageBuffer) -> (r: Result<Vec<u8>, String>)
    requires
        img.wf(),
    ensures
        r matches Ok(b) ==> Some(b@) == webp_encoding_of(
            img.data@,
            img.width as int,
            img.height as int,
        ),
        r is Err ==> webp_encoding_of(img.data@, img.width as int, img.height as int) is None,
{
    let rgba = image::RgbaImage::from_raw(img.width, img.height, img.data.clone()).unwrap();
    let mut buf: Vec<u8> = Vec::new();
    let encoder = image::codecs::webp::WebPEncoder::new_lossless(&mut buf);
    match rgba.write_with_encoder(encoder) {
        Ok(()) => Ok(buf),
        Err(e) => Err(format!("{}", e)),
    }
}

/// The decoded image — its tightly packed RGBA pixels, width and height —
/// that the named codec yields for the given bytes, or nothing where the
/// codec rejects them. Decoding is a function of the bytes and the format
/// alone.
pub uninterp spec fn decoded_rgba_of(bytes: Seq<u8>, format: ImgFormat) -> Option<
    (Seq<u8>, int, int),
>;

/// Relies on image::load_from_memory_with_format and
/// DynamicImage::to_rgba8: on success the decoded image comes back as a
/// tightly packed RGBA buffer of its own dimensions (alpha synthesized as
/// fully opaque where the source had none); on failure the codec's
/// diagnostic comes back.
#[verifier::external_body]
fn decode_rgba(bytes: &[u8], format: ImgFormat) -> (r: Result<ImageBuffer, String>)
    ensures
        r matches Ok(img) ==> img.wf() && decoded_rgba_of(bytes@, format) == Some(
            (img.data@, img.width as int, img.height as int),
        ),
        r is Err ==> decoded_rgba_of(bytes@, format) is None,
{
    let fmt = match format {
        ImgFormat::Jpeg => image::ImageFormat::Jpeg,
        ImgFormat::Png => image::ImageFormat::Png,
        ImgFormat::Webp => image::ImageFormat::WebP,
    };
    match image::load_from_memory_with_format(bytes, fmt) {
        Ok(decoded) => {
            let rgba = decoded.to_rgba8();
            Ok(ImageBuffer { width: rgba.width(), height: rgba.height(), data: rgba.into_raw() })
        },
        Err(e) => Err(format!("{}", e)),
    }
}

/// The quality an encode honors: the caller's explicit value, or the fixed
/// default of 80 where none was given.
pub open spec fn resolved_quality(quality: Option<u8>) -> u8 {
    match quality {
        Some(q) => q,
        None => 80,
    }
}

/// Decodes raw bytes in the named format into an RGBA buffer. Corrupt or
/// mismatched bytes surface the codec's diagnostic as a `DecodeError`.
pub fn decode_image(bytes: &[u8], format: ImgFormat) -> (r: Result<ImageBuffer, PipelineError>)
    ensures
        r is Ok <==> decoded_rgba_of(bytes@, format) is Some,
        r matches Ok(img) ==> img.wf() && decoded_rgba_of(bytes@, format) == Some(
            (img.data@, img.width as int, img.height as int),
        ),
        r is Err ==> (r matches Err(e) && e is DecodeError),
{
    match decode_rgba(bytes, format) {
        Ok(img) => Ok(img),
        Err(m) => Err(PipelineError::DecodeError(m)),
    }
}

/// Re-encodes an RGBA buffer into the named format. An explicit quality is
/// honored on the lossy JPEG path, with a fixed default of 80 where absent;
/// PNG always uses the strongest compression with the Paeth filter, and WebP
/// is always lossless, whatever quality was requested — both fixed policies.
/// A codec failure surfaces its diagnostic as an `EncodeError`.
pub fn encode_image(img: &ImageBuffer, format: ImgFormat, quality: Option<u8>) -> (r: Result<
    Vec<u8>,
    PipelineError,
>)
    requires
        img.wf(),
    ensures
        r is Ok <==> encoded_rgba_of(
            img.data@,
            img.width as int,
            img.height as int,
            format,
            resolved_quality(quality),
        ) is Some,
        r matches Ok(b) ==> Some(b@) == encoded_rgba_of(
            img.data@,
            img.width as int,
            img.height as int,
            format,
            resolved_quality(quality),
        ),
        r is Err ==> (r matches Err(e) && e is EncodeError),
{
    let encoded = match format {
        ImgFormat::Jpeg => {
            let q: u8 = match quality {
                Some(q) => q,
                None => 80,
            };
            jpeg_encode(img, q)
        },
        ImgFormat::Png => png_encode(img),
        ImgFormat::Webp => webp_encode(img),
    };
    match encoded {
        Ok(b) => Ok(b),
        Err(m) => Err(PipelineError::EncodeError(m)),
    }
}

} // verus!
