use vstd::prelude::*;

use crate::buffer::{apply_crop, crop_rgba, ImageBuffer};
use crate::codec::{
    decode_image, decoded_rgba_of, encode_image, encoded_rgba_of, format_of_tag, parse_format,
    resolved_quality, valid_tag, ImgFormat,
};
use crate::compositor::{composite, composited_chan, composited_rgba};
use crate::errors::{PipelineError, RectKind};
use crate::geometry::{rect_fits, validate_rect, Rect, TargetSize};
use crate::resample::{apply_resize, lanczos3_rgba};

verus! {

/// A watermark to composite onto the image: the watermark's own encoded
/// bytes, where to place it, and how its alpha is resolved. The opacity
/// percentage is validated at construction: out-of-range values are an
/// error, never clamped.
#[derive(Debug)]
pub struct WatermarkSpec {
    pub source_bytes: Vec<u8>,
    pub placement: Rect,
    pub opacity_percent: u8,
    pub use_source_alpha: bool,
}

impl WatermarkSpec {
    /// The construction-time invariant: the opacity percentage is in range.
    pub open spec fn wf(&self) -> bool {
        self.opacity_percent <= 100
    }

    /// Builds a watermark specification, rejecting an opacity percentage
    /// above 100 with `InvalidParameter` — before any decoding takes place.
    pub fn new(
        source_bytes: Vec<u8>,
        placement: Rect,
        opacity_percent: u8,
        use_source_alpha: bool,
    ) -> (r: Result<WatermarkSpec, PipelineError>)
        ensures
            r is Ok <==> opacity_percent <= 100,
            r matches Ok(w) ==> w == (WatermarkSpec {
                source_bytes,
                placement,
                opacity_percent,
                use_source_alpha,
            }) && w.wf(),
            r is Err ==> r == Err::<WatermarkSpec, PipelineError>(PipelineError::InvalidParameter),
    {
        if opacity_percent > 100 {
            Err(PipelineError::InvalidParameter)
        } else {
            Ok(WatermarkSpec { source_bytes, placement, opacity_percent, use_source_alpha })
        }
    }
}

/// One pipeline invocation's configuration, constructed once by the caller's
/// boundary layer, read here, never mutated. Each optional stage is skipped
/// when its field is absent.
#[derive(Debug)]
pub struct PipelineRequest {
    pub input_format: String,
    pub crop: Option<Rect>,
    pub target_size: Option<TargetSize>,
    pub watermark: Option<WatermarkSpec>,
    pub output_format: Option<String>,
    pub quality: Option<u8>,
}

/// The request carries a watermark whose opacity percentage is out of range.
pub open spec fn bad_opacity(request: &PipelineRequest) -> bool {
    match request.watermark {
        Some(w) => w.opacity_percent > 100,
        None => false,
    }
}

/// Some supported codec accepts these bytes.
pub open spec fn wm_decodable(bytes: Seq<u8>) -> bool {
    ||| decoded_rgba_of(bytes, ImgFormat::Png) is Some
    ||| decoded_rgba_of(bytes, ImgFormat::Jpeg) is Some
    ||| decoded_rgba_of(bytes, ImgFormat::Webp) is Some
}

/// What watermark bytes decode to: the first codec that accepts them wins,
/// in the fixed order PNG, JPEG, WebP. Meaningful only where `wm_decodable`
/// holds.
pub open spec fn wm_decoded(bytes: Seq<u8>) -> (Seq<u8>, int, int) {
    match decoded_rgba_of(bytes, ImgFormat::Png) {
        Some(t) => t,
        None => match decoded_rgba_of(bytes, ImgFormat::Jpeg) {
            Some(t) => t,
            None => match decoded_rgba_of(bytes, ImgFormat::Webp) {
                Some(t) => t,
                None => (Seq::empty(), 0, 0),
            },
        },
    }
}

/// Decodes watermark bytes, which may arrive in any supported format: each
/// codec is tried in turn — PNG, then JPEG, then WebP — and the first that
/// accepts the bytes wins; bytes no codec accepts are a `DecodeError`
/// carrying the last codec's diagnostic.
pub fn decode_watermark(bytes: &[u8]) -> (r: Result<ImageBuffer, PipelineError>)
    ensures
        r is Ok <==> wm_decodable(bytes@),
        r matches Ok(img) ==> img.wf(),
        r matches Ok(img) ==> (img.data@, img.width as int, img.height as int) == wm_decoded(
            bytes@,
        ),
        r is Err ==> (r matches Err(e) && e is DecodeError),
{
    match decode_image(bytes, ImgFormat::Png) {
        Ok(img) => Ok(img),
        Err(_) => match decode_image(bytes, ImgFormat::Jpeg) {
            Ok(img) => Ok(img),
            Err(_) => decode_image(bytes, ImgFormat::Webp),
        },
    }
}

/// The request's opacity and input tag checks — everything the pipeline
/// validates before it touches the input bytes — pass.
pub open spec fn passes_preflight(request: &PipelineRequest) -> bool {
    !bad_opacity(request) && valid_tag(request.input_format@)
}

/// What the input bytes decode to under the request's input tag.
pub open spec fn decoded_input(input_bytes: Seq<u8>, request: &PipelineRequest) -> Option<
    (Seq<u8>, int, int),
> {
    decoded_rgba_of(input_bytes, format_of_tag(request.input_format@))
}

/// The input bytes decode under the request's input tag.
pub open spec fn input_decodes(input_bytes: Seq<u8>, request: &PipelineRequest) -> bool {
    decoded_input(input_bytes, request) is Some
}

/// Image dimensions after the optional crop stage.
pub open spec fn dims_after_crop(request: &PipelineRequest, w: int, h: int) -> (int, int) {
    match request.crop {
        Some(c) => (c.width as int, c.height as int),
        None => (w, h),
    }
}

/// Image dimensions after the optional resize stage.
pub open spec fn dims_after_resize(request: &PipelineRequest, w: int, h: int) -> (int, int) {
    match request.target_size {
        Some(s) => (s.width as int, s.height as int),
        None => (w, h),
    }
}

/// The requested crop rectangle, if any, lies inside the decoded input.
pub open spec fn crop_fits(input_bytes: Seq<u8>, request: &PipelineRequest) -> bool {
    match decoded_input(input_bytes, request) {
        Some(t) => match request.crop {
            Some(c) => rect_fits(c, t.1 as u32, t.2 as u32),
            None => true,
        },
        None => false,
    }
}

/// The dimensions the watermark placement is checked against: the decoded
/// input's, after the optional crop and resize.
pub open spec fn dims_before_watermark(input_bytes: Seq<u8>, request: &PipelineRequest) -> (
    int,
    int,
) {
    match decoded_input(input_bytes, request) {
        Some(t) => {
            let after_crop = dims_after_crop(request, t.1, t.2);
            dims_after_resize(request, after_crop.0, after_crop.1)
        },
        None => (0, 0),
    }
}

/// The requested watermark's bytes, if any, decode under some supported
/// codec.
pub open spec fn watermark_decodes(request: &PipelineRequest) -> bool {
    match request.watermark {
        Some(w) => wm_decodable(w.source_bytes@),
        None => true,
    }
}

/// The requested watermark's placement, if any, lies inside the image as it
/// stands after crop and resize.
pub open spec fn watermark_fits(input_bytes: Seq<u8>, request: &PipelineRequest) -> bool {
    match request.watermark {
        Some(w) => ({
            let dims = dims_before_watermark(input_bytes, request);
            rect_fits(w.placement, dims.0 as u32, dims.1 as u32)
        }),
        None => true,
    }
}

/// The resolved output tag, where one was given, is valid.
pub open spec fn output_tag_ok(request: &PipelineRequest) -> bool {
    match request.output_format {
        Some(t) => valid_tag(t@),
        None => true,
    }
}

/// The codec the output is encoded with: the output tag's where one was
/// given, the input tag's otherwise.
pub open spec fn resolved_format(request: &PipelineRequest) -> ImgFormat {
    match request.output_format {
        Some(t) => format_of_tag(t@),
        None => format_of_tag(request.input_format@),
    }
}

/// The image — flat RGBA pixels, width, height — that the decode, crop,
/// resize and watermark stages together produce for this request, before
/// re-encoding. Meaningful only where the stages all pass (the input and
/// watermark decode and the rectangles fit).
pub open spec fn staged_rgba(input_bytes: Seq<u8>, request: &PipelineRequest) -> (
    Seq<u8>,
    int,
    int,
) {
    match decoded_input(input_bytes, request) {
        Some(t) => ({
            let cropped = match request.crop {
                Some(c) => (crop_rgba(t.0, t.1, c), c.width as int, c.height as int),
                None => t,
            };
            let resized = match request.target_size {
                Some(s) => (
                    lanczos3_rgba(
                        cropped.0,
                        cropped.1,
                        cropped.2,
                        s.width as int,
                        s.height as int,
                    ),
                    s.width as int,
                    s.height as int,
                ),
                None => cropped,
            };
            match request.watermark {
                Some(w) => ({
                    let wm = wm_decoded(w.source_bytes@);
                    (
                        composited_rgba(
                            resized.0,
                            resized.1,
                            resized.2,
                            lanczos3_rgba(
                                wm.0,
                                wm.1,
                                wm.2,
                                w.placement.width as int,
                                w.placement.height as int,
                            ),
                            w.placement.width as int,
                            w.placement.height as int,
                            w.placement.x as int,
                            w.placement.y as int,
                            w.opacity_percent,
                            w.use_source_alpha,
                        ),
                        resized.1,
                        resized.2,
                    )
                }),
                None => resized,
            }
        }),
        None => (Seq::empty(), 0, 0),
    }
}

/// What the whole pipeline yields once every stage check passes: the staged
/// image re-encoded with the resolved codec and quality.
pub open spec fn transform_encoding(input_bytes: Seq<u8>, request: &PipelineRequest) -> Option<
    Seq<u8>,
> {
    let staged = staged_rgba(input_bytes, request);
    encoded_rgba_of(
        staged.0,
        staged.1,
        staged.2,
        resolved_format(request),
        resolved_quality(request.quality),
    )
}

/// Every check of every stage before the final encode passes.
pub open spec fn stages_pass(input_bytes: Seq<u8>, request: &PipelineRequest) -> bool {
    &&& passes_preflight(request)
    &&& input_decodes(input_bytes, request)
    &&& crop_fits(input_bytes, request)
    &&& watermark_decodes(request)
    &&& watermark_fits(input_bytes, request)
    &&& output_tag_ok(request)
}

/// Composites a decoded watermark image onto `img`: the watermark is resized
/// to the placement rectangle with the fixed Lanczos kernel, the placement
/// is validated against the base image before any mutation, and the color
/// channels are blended pixel by pixel while the base's alpha channel stays
/// untouched. A placement that exceeds the base image is rejected and the
/// base buffer is returned unread.
pub fn apply_watermark(
    img: &ImageBuffer,
    wm_img: &ImageBuffer,
    placement: &Rect,
    opacity_percent: u8,
    use_source_alpha: bool,
) -> (r: Result<ImageBuffer, PipelineError>)
    requires
        img.wf(),
        wm_img.wf(),
        opacity_percent <= 100,
    ensures
        r is Ok <==> rect_fits(*placement, img.width, img.height),
        r is Err ==> r == Err::<ImageBuffer, PipelineError>(
            PipelineError::OutOfBounds(RectKind::Watermark, *placement),
        ),
        r matches Ok(out) ==> {
            &&& out.wf()
            &&& out.width == img.width
            &&& out.height == img.height
            &&& forall|x: int, y: int, c: int|
                0 <= x < img.width && 0 <= y < img.height && 0 <= c < 4
                    ==> out.chan(x, y, c) == composited_chan(
                    img.data@,
                    img.width as int,
                    lanczos3_rgba(
                        wm_img.data@,
                        wm_img.width as int,
                        wm_img.height as int,
                        placement.width as int,
                        placement.height as int,
                    ),
                    placement.width as int,
                    placement.height as int,
                    placement.x as int,
                    placement.y as int,
                    opacity_percent,
                    use_source_alpha,
                    x,
                    y,
                    c,
                )
            &&& out.data@ == composited_rgba(
                img.data@,
                img.width as int,
                img.height as int,
                lanczos3_rgba(
                    wm_img.data@,
                    wm_img.width as int,
                    wm_img.height as int,
                    placement.width as int,
                    placement.height as int,
                ),
                placement.width as int,
                placement.height as int,
                placement.x as int,
                placement.y as int,
                opacity_percent,
                use_source_alpha,
            )
        },
{
    validate_rect(placement, img.width, img.height, RectKind::Watermark)?;
    let resized = apply_resize(wm_img, placement.width, placement.height);
    Ok(composite(img, &resized, placement.x, placement.y, opacity_percent, use_source_alpha))
}

/// The single entry point: decode the input, then crop, resize and
/// watermark as far as the request asks, then re-encode. Stages run in that
/// fixed order, each skipped stage passes the buffer through unchanged, and
/// the first failing stage aborts the run with its own error — no partial
/// output exists. The watermark's opacity is checked before anything is
/// decoded; the output format defaults to the input format, the quality to
/// each codec's fixed default.
pub fn transform(input_bytes: &[u8], request: &PipelineRequest) -> (r: Result<
    Vec<u8>,
    PipelineError,
>)
    ensures
        r == Err::<Vec<u8>, PipelineError>(PipelineError::InvalidParameter) <==> bad_opacity(
            request,
        ),
        !bad_opacity(request) && !valid_tag(request.input_format@) ==> r == Err::<
            Vec<u8>,
            PipelineError,
        >(PipelineError::InvalidFormat),
        r == Err::<Vec<u8>, PipelineError>(PipelineError::InvalidFormat) ==> !valid_tag(
            request.input_format@,
        ) || (request.output_format matches Some(t) && !valid_tag(t@)),
        r matches Err(PipelineError::OutOfBounds(RectKind::Crop, rect)) ==> request.crop == Some(
            rect,
        ),
        r matches Err(PipelineError::OutOfBounds(RectKind::Watermark, rect)) ==> (
        request.watermark matches Some(w) && w.placement == rect),
        passes_preflight(request) && !input_decodes(input_bytes@, request) ==> (r matches Err(e)
            && e is DecodeError),
        passes_preflight(request) && input_decodes(input_bytes@, request) && !crop_fits(
            input_bytes@,
            request,
        ) ==> r matches Err(PipelineError::OutOfBounds(RectKind::Crop, _)),
        passes_preflight(request) && crop_fits(input_bytes@, request) && !watermark_decodes(
            request,
        ) ==> (r matches Err(e) && e is DecodeError),
        passes_preflight(request) && crop_fits(input_bytes@, request) && watermark_decodes(request)
            && !watermark_fits(input_bytes@, request) ==> r matches Err(
            PipelineError::OutOfBounds(RectKind::Watermark, _),
        ),
        passes_preflight(request) && crop_fits(input_bytes@, request) && watermark_decodes(request)
            && watermark_fits(input_bytes@, request) && !output_tag_ok(request) ==> r == Err::<
            Vec<u8>,
            PipelineError,
        >(PipelineError::InvalidFormat),
        (r matches Err(e) && e is EncodeError) || r is Ok ==> stages_pass(input_bytes@, request),
        stages_pass(input_bytes@, request) ==> match transform_encoding(input_bytes@, request) {
            Some(b) => (r matches Ok(v) && v@ == b),
            None => (r matches Err(e) && e is EncodeError),
        },
        r matches Ok(v) ==> Some(v@) == transform_encoding(input_bytes@, request),
{
    if let Some(wm) = &request.watermark {
        if wm.opacity_percent > 100 {
            return Err(PipelineError::InvalidParameter);
        }
    }
    let in_fmt = parse_format(request.input_format.as_str())?;
    let decoded = decode_image(input_bytes, in_fmt)?;
    let cropped = match &request.crop {
        Some(rect) => apply_crop(&decoded, rect)?,
        None => decoded,
    };
    let resized = match &request.target_size {
        Some(size) => apply_resize(&cropped, size.width, size.height),
        None => cropped,
    };
    let marked = match &request.watermark {
        Some(wm) => {
            let wm_img = decode_watermark(wm.source_bytes.as_slice())?;
            apply_watermark(&resized, &wm_img, &wm.placement, wm.opacity_percent, wm.use_source_alpha)?
        },
        None => resized,
    };
    let out_fmt = match &request.output_format {
        Some(tag) => parse_format(tag.as_str())?,
        None => in_fmt,
    };
    encode_image(&marked, out_fmt, request.quality)
}

} // verus!
