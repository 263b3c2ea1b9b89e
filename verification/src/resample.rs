use vstd::prelude::*;

use crate::buffer::ImageBuffer;

verus! {

/// The RGBA pixels that the Lanczos (radius 3) resampler produces for the
/// given source pixels and dimensions. The kernel's arithmetic is a function
/// of its arguments alone, so the result carries a name rather than a
/// re-statement of the filter.
pub uninterp spec fn lanczos3_rgba(
    pixels: Seq<u8>,
    src_w: int,
    src_h: int,
    dst_w: int,
    dst_h: int,
) -> Seq<u8>;

/// Relies on image::imageops::resize with FilterType::Lanczos3: the output
/// buffer has exactly the target dimensions, and its pixels depend on the
/// source pixels and the dimensions alone.
#[verifier::external_body]
fn resize_lanczos3(img: &ImageBuffer, dst_w: u32, dst_h: u32) -> (out: ImageBuffer)
    requires
        img.wf(),
    ensures
        out.wf(),
        out.width == dst_w,
        out.height == dst_h,
        out.data@ == lanczos3_rgba(
            img.data@,
            img.width as int,
            img.height as int,
            dst_w as int,
            dst_h as int,
        ),
{
    let rgba = image::RgbaImage::from_raw(img.width, img.height, img.data.clone()).unwrap();
    let resized = image::imageops::resize(&rgba, dst_w, dst_h, image::imageops::FilterType::Lanczos3);
    ImageBuffer { width: dst_w, height: dst_h, data: resized.into_raw() }
}

/// Produces a new buffer at the target dimensions with the fixed
/// high-quality Lanczos (radius 3) kernel; no other filter is offered. The
/// output dimensions equal the request exactly, so resizing a second time to
/// the same target yields the same dimensions again. A degenerate target
/// (width or height zero) yields an empty buffer of that size rather than an
/// error, as the downstream encoder is the stage that rejects it.
pub fn apply_resize(img: &ImageBuffer, width: u32, height: u32) -> (out: ImageBuffer)
    requires
        img.wf(),
    ensures
        out.wf(),
        out.width == width,
        out.height == height,
        out.data@ == lanczos3_rgba(
            img.data@,
            img.width as int,
            img.height as int,
            width as int,
            height as int,
        ),
{
    resize_lanczos3(img, width, height)
}

} // verus!
