use vstd::prelude::*;

use vstd::arithmetic::div_mod::{lemma_fundamental_div_mod, lemma_mod_bound};

use crate::errors::{PipelineError, RectKind};
use crate::geometry::{rect_fits, Rect};

verus! {

/// A rectangular grid of RGBA pixels: 8 bits per channel, 4 channels per
/// pixel, rows stored top to bottom with no padding. Each pipeline stage owns
/// the buffer it operates on and hands a buffer forward; nothing is shared
/// across stages.
#[derive(Debug)]
pub struct ImageBuffer {
    pub width: u32,
    pub height: u32,
    pub data: Vec<u8>,
}

/// Flat index of channel `c` of the pixel at `(x, y)` in a row-major RGBA
/// buffer that is `w` pixels wide.
pub open spec fn chan_index(w: int, x: int, y: int, c: int) -> int {
    4 * (y * w + x) + c
}

impl ImageBuffer {
    /// The buffer holds exactly `width * height` RGBA pixels.
    pub open spec fn wf(&self) -> bool {
        self.data.len() == 4 * (self.width as int) * (self.height as int)
    }

    /// Channel `c` (0 red, 1 green, 2 blue, 3 alpha) of the pixel at `(x, y)`.
    pub open spec fn chan(&self, x: int, y: int, c: int) -> u8 {
        self.data@[chan_index(self.width as int, x, y, c)]
    }
}

/// A channel index inside the pixel grid stays inside the flat buffer.
pub proof fn lemma_chan_index_bounds(w: int, h: int, x: int, y: int, c: int)
    by (nonlinear_arith)
    requires
        0 <= x < w,
        0 <= y < h,
        0 <= c < 4,
    ensures
        0 <= chan_index(w, x, y, c),
        chan_index(w, x, y, c) < 4 * w * h,
        chan_index(w, x, y, c) + 4 - c <= 4 * w * h,
{
}

/// Row-major channel indices grow with the position: every channel of an
/// earlier pixel (higher row, or same row further left) lies strictly below
/// every channel of a later one.
pub proof fn lemma_chan_index_order(w: int, x1: int, y1: int, c1: int, x2: int, y2: int)
    by (nonlinear_arith)
    requires
        0 <= x1 < w,
        0 <= x2 < w,
        0 <= y1,
        0 <= y2,
        0 <= c1 < 4,
        y1 < y2 || (y1 == y2 && x1 < x2),
    ensures
        chan_index(w, x1, y1, c1) < chan_index(w, x2, y2, 0),
{
}

/// Any flat index into a `w × h` RGBA buffer decomposes into the pixel
/// coordinate and channel whose `chan_index` it is.
pub proof fn lemma_chan_index_decompose(w: int, h: int, i: int)
    requires
        0 <= w,
        0 <= h,
        0 <= i < 4 * w * h,
    ensures
        ({
            let c = i % 4;
            let p = i / 4;
            let x = p % w;
            let y = p / w;
            0 <= c < 4 && 0 <= x < w && 0 <= y < h && chan_index(w, x, y, c) == i
        }),
{
    assert(w > 0 && h > 0) by (nonlinear_arith)
        requires
            0 <= i < 4 * w * h && 0 <= w && 0 <= h,
    ;
    let c = i % 4;
    let p = i / 4;
    lemma_fundamental_div_mod(i, 4);
    lemma_mod_bound(i, 4);
    assert(0 <= p < w * h) by (nonlinear_arith)
        requires
            i == 4 * p + c && 0 <= c < 4 && 0 <= i < 4 * w * h,
    ;
    let x = p % w;
    let y = p / w;
    lemma_fundamental_div_mod(p, w);
    lemma_mod_bound(p, w);
    assert(0 <= y < h) by (nonlinear_arith)
        requires
            p == w * y + x && 0 <= x < w && 0 <= p < w * h && w > 0 && h > 0,
    ;
    assert(chan_index(w, x, y, c) == i) by (nonlinear_arith)
        requires
            p == w * y + x && i == 4 * p + c && chan_index(w, x, y, c) == 4 * (y * w + x) + c,
    ;
}

/// The pixels of the sub-rectangle `rect` of a row-major RGBA sequence whose
/// rows are `src_w` pixels wide, as a flat sequence of its own.
pub open spec fn crop_rgba(data: Seq<u8>, src_w: int, rect: Rect) -> Seq<u8> {
    Seq::new(
        (4 * (rect.width as int) * (rect.height as int)) as nat,
        |i: int|
            data[chan_index(
                src_w,
                rect.x + ((i / 4) % (rect.width as int)),
                rect.y + ((i / 4) / (rect.width as int)),
                i % 4,
            )],
    )
}

/// Extracts the sub-rectangle `rect` of `img` into a fresh buffer. The output
/// dimensions equal the requested width and height exactly, and every output
/// pixel is the corresponding input pixel, untouched. A rectangle that does
/// not lie inside the image is rejected before any pixel is read, and the
/// input buffer is never mutated.
pub fn apply_crop(img: &ImageBuffer, rect: &Rect) -> (r: Result<ImageBuffer, PipelineError>)
    requires
        img.wf(),
    ensures
        r is Ok <==> rect_fits(*rect, img.width, img.height),
        r is Err ==> r == Err::<ImageBuffer, PipelineError>(
            PipelineError::OutOfBounds(RectKind::Crop, *rect),
        ),
        r matches Ok(out) ==> {
            &&& out.wf()
            &&& out.width == rect.width
            &&& out.height == rect.height
            &&& forall|x: int, y: int, c: int|
                0 <= x < rect.width && 0 <= y < rect.height && 0 <= c < 4
                    ==> out.chan(x, y, c) == img.chan(rect.x + x, rect.y + y, c)
            &&& out.data@ == crop_rgba(img.data@, img.width as int, *rect)
        },
{
    crate::geometry::validate_rect(rect, img.width, img.height, RectKind::Crop)?;
    let w = rect.width;
    let h = rect.height;
    let mut data: Vec<u8> = Vec::new();
    let mut y: u32 = 0;
    while y < h
        invariant
            img.wf(),
            rect_fits(*rect, img.width, img.height),
            w == rect.width,
            h == rect.height,
            y <= h,
            data.len() == 4 * ((y as int) * (w as int)),
            forall|xx: int, yy: int, c: int|
                0 <= xx < w && 0 <= yy < y && 0 <= c < 4
                    ==> data@[chan_index(w as int, xx, yy, c)] == img.chan(
                    rect.x + xx,
                    rect.y + yy,
                    c,
                ),
        decreases h - y,
    {
        let mut x: u32 = 0;
        while x < w
            invariant
                img.wf(),
                rect_fits(*rect, img.width, img.height),
                w == rect.width,
                h == rect.height,
                y < h,
                x <= w,
                data.len() == 4 * ((y as int) * (w as int) + (x as int)),
                forall|xx: int, yy: int, c: int|
                    0 <= xx < w && 0 <= yy < y && 0 <= c < 4
                        ==> data@[chan_index(w as int, xx, yy, c)] == img.chan(
                        rect.x + xx,
                        rect.y + yy,
                        c,
                    ),
                forall|xx: int, c: int|
                    0 <= xx < x && 0 <= c < 4
                        ==> data@[chan_index(w as int, xx, y as int, c)] == img.chan(
                        rect.x + xx,
                        rect.y + y,
                        c,
                    ),
            decreases w - x,
        {
            let sx = rect.x + x;
            let sy = rect.y + y;
            proof {
                lemma_chan_index_bounds(
                    img.width as int,
                    img.height as int,
                    sx as int,
                    sy as int,
                    0,
                );
                assert((sy as int) * (img.width as int) + (sx as int) < (img.width as int) * (
                img.height as int)) by (nonlinear_arith)
                    requires
                        0 <= sx < img.width as int,
                        0 <= sy < img.height as int,
                ;
            }
            let base: usize = 4 * ((sy as usize) * (img.width as usize) + (sx as usize));
            let ghost data_before = data@;
            data.push(img.data[base]);
            data.push(img.data[base + 1]);
            data.push(img.data[base + 2]);
            data.push(img.data[base + 3]);
            proof {
                lemma_crop_step(img, *rect, data_before, data@, x as int, y as int);
            }
            x = x + 1;
        }
        y = y + 1;
        assert(data.len() == 4 * ((y as int) * (w as int))) by (nonlinear_arith)
            requires
                data.len() == 4 * ((y as int - 1) * (w as int) + (w as int)),
        ;
    }
    proof {
        assert(4 * ((h as int) * (w as int)) == 4 * (w as int) * (h as int)) by (nonlinear_arith);
        let target = crop_rgba(img.data@, img.width as int, *rect);
        assert forall|i: int| 0 <= i < data@.len() implies data@[i] == target[i] by {
            lemma_chan_index_decompose(w as int, h as int, i);
        }
        assert(data@ =~= target);
    }
    Ok(ImageBuffer { width: w, height: h, data })
}

/// After appending the four channels of source pixel `(rect.x + x, rect.y + y)`
/// to a prefix that already mirrors every earlier output position, the longer
/// prefix mirrors position `(x, y)` as well and disturbs none before it.
proof fn lemma_crop_step(
    img: &ImageBuffer,
    rect: Rect,
    before: Seq<u8>,
    after: Seq<u8>,
    x: int,
    y: int,
)
    requires
        img.wf(),
        rect_fits(rect, img.width, img.height),
        0 <= x < rect.width,
        0 <= y < rect.height,
        before.len() == 4 * (y * (rect.width as int) + x),
        after.len() == before.len() + 4,
        forall|i: int| 0 <= i < before.len() ==> after[i] == before[i],
        forall|c: int|
            0 <= c < 4 ==> #[trigger] after[before.len() + c] == img.chan(rect.x + x, rect.y + y, c),
        forall|xx: int, yy: int, c: int|
            0 <= xx < rect.width && 0 <= yy < y && 0 <= c < 4
                ==> before[chan_index(rect.width as int, xx, yy, c)] == img.chan(
                rect.x + xx,
                rect.y + yy,
                c,
            ),
        forall|xx: int, c: int|
            0 <= xx < x && 0 <= c < 4
                ==> before[chan_index(rect.width as int, xx, y, c)] == img.chan(
                rect.x + xx,
                rect.y + y,
                c,
            ),
    ensures
        forall|xx: int, yy: int, c: int|
            0 <= xx < rect.width && 0 <= yy < y && 0 <= c < 4
                ==> after[chan_index(rect.width as int, xx, yy, c)] == img.chan(
                rect.x + xx,
                rect.y + yy,
                c,
            ),
        forall|xx: int, c: int|
            0 <= xx < x + 1 && 0 <= c < 4
                ==> after[chan_index(rect.width as int, xx, y, c)] == img.chan(
                rect.x + xx,
                rect.y + y,
                c,
            ),
{
    let w = rect.width as int;
    assert forall|xx: int, yy: int, c: int|
        0 <= xx < w && 0 <= yy < y && 0 <= c < 4 implies after[chan_index(w, xx, yy, c)]
        == img.chan(rect.x + xx, rect.y + yy, c) by {
        lemma_chan_index_bounds(w, y + 1, xx, yy, c);
        lemma_chan_index_order(w, xx, yy, c, x, y);
        assert(chan_index(w, xx, yy, c) < chan_index(w, x, y, 0));
        assert(chan_index(w, x, y, 0) == before.len());
    }
    assert forall|xx: int, c: int| 0 <= xx < x + 1 && 0 <= c < 4 implies after[chan_index(
        w,
        xx,
        y,
        c,
    )] == img.chan(rect.x + xx, rect.y + y, c) by {
        if xx < x {
            lemma_chan_index_order(w, xx, y, c, x, y);
            assert(chan_index(w, xx, y, c) < chan_index(w, x, y, 0));
            assert(chan_index(w, x, y, 0) == before.len());
        } else {
            assert(chan_index(w, x, y, c) == before.len() + c);
        }
    }
}

} // verus!
