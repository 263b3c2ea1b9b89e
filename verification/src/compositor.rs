use vstd::prelude::*;

use crate::buffer::{
    chan_index, lemma_chan_index_bounds, lemma_chan_index_decompose, lemma_chan_index_order,
    ImageBuffer,
};

verus! {

/// The effective alpha of a watermark pixel whose own alpha channel is `wa`.
/// With `use_source_alpha` the watermark's channel is used verbatim;
/// otherwise it is scaled by the opacity percentage, in fixed-point
/// arithmetic with truncation.
pub open spec fn effective_alpha(wa: u8, opacity_percent: u8, use_source_alpha: bool) -> int {
    if use_source_alpha {
        wa as int
    } else {
        (wa as int) * (opacity_percent as int) / 100
    }
}

/// One blended color channel: `base * (1 - alpha) + watermark * alpha` with
/// `alpha = a / 255`, carried out in fixed-point arithmetic over the 0..=255
/// channel range and truncated.
pub open spec fn blend_chan(b: u8, w: u8, a: int) -> int {
    ((b as int) * (255 - a) + (w as int) * a) / 255
}

/// What channel `c` of the pixel at `(x, y)` holds after a watermark — the
/// flat RGBA sequence `wm_data` of dimensions `wm_w × wm_h` — is composited
/// onto the flat base sequence `base_data` (rows `base_w` pixels wide) with
/// its top-left corner at `(px, py)`. The alpha channel of the base is never
/// touched: the result is exactly as opaque as the base was. Color channels
/// outside the watermark's footprint are untouched as well.
pub open spec fn composited_chan(
    base_data: Seq<u8>,
    base_w: int,
    wm_data: Seq<u8>,
    wm_w: int,
    wm_h: int,
    px: int,
    py: int,
    opacity_percent: u8,
    use_source_alpha: bool,
    x: int,
    y: int,
    c: int,
) -> int {
    if c < 3 && px <= x < px + wm_w && py <= y < py + wm_h {
        blend_chan(
            base_data[chan_index(base_w, x, y, c)],
            wm_data[chan_index(wm_w, x - px, y - py, c)],
            effective_alpha(
                wm_data[chan_index(wm_w, x - px, y - py, 3)],
                opacity_percent,
                use_source_alpha,
            ),
        )
    } else {
        base_data[chan_index(base_w, x, y, c)] as int
    }
}

/// The whole composited image as a flat RGBA sequence of the base's
/// dimensions.
pub open spec fn composited_rgba(
    base_data: Seq<u8>,
    base_w: int,
    base_h: int,
    wm_data: Seq<u8>,
    wm_w: int,
    wm_h: int,
    px: int,
    py: int,
    opacity_percent: u8,
    use_source_alpha: bool,
) -> Seq<u8> {
    Seq::new(
        (4 * base_w * base_h) as nat,
        |i: int|
            composited_chan(
                base_data,
                base_w,
                wm_data,
                wm_w,
                wm_h,
                px,
                py,
                opacity_percent,
                use_source_alpha,
                (i / 4) % base_w,
                (i / 4) / base_w,
                i % 4,
            ) as u8,
    )
}

/// The effective alpha stays in the channel range, and the fixed-point
/// product it is computed from stays well below the machine word.
pub proof fn lemma_effective_alpha_bounds(wa: u8, opacity_percent: u8, use_source_alpha: bool)
    by (nonlinear_arith)
    requires
        opacity_percent <= 100,
    ensures
        0 <= effective_alpha(wa, opacity_percent, use_source_alpha) <= 255,
        0 <= (wa as int) * (opacity_percent as int) <= 25500,
{
}

/// The two fixed-point products of a blend stay well below the machine word.
proof fn lemma_blend_no_overflow(b: u8, w: u8, a: int)
    by (nonlinear_arith)
    requires
        0 <= a <= 255,
    ensures
        0 <= (b as int) * (255 - a) <= 65025,
        0 <= (w as int) * a <= 65025,
{
}

/// A blended channel stays in the channel range.
pub proof fn lemma_blend_chan_bounds(b: u8, w: u8, a: int)
    by (nonlinear_arith)
    requires
        0 <= a <= 255,
    ensures
        0 <= blend_chan(b, w, a) <= 255,
{
}

/// A composited channel stays in the channel range.
pub proof fn lemma_composited_chan_bounds(
    base_data: Seq<u8>,
    base_w: int,
    wm_data: Seq<u8>,
    wm_w: int,
    wm_h: int,
    px: int,
    py: int,
    opacity_percent: u8,
    use_source_alpha: bool,
    x: int,
    y: int,
    c: int,
)
    requires
        opacity_percent <= 100,
    ensures
        0 <= composited_chan(
            base_data,
            base_w,
            wm_data,
            wm_w,
            wm_h,
            px,
            py,
            opacity_percent,
            use_source_alpha,
            x,
            y,
            c,
        ) <= 255,
{
    if c < 3 && px <= x < px + wm_w && py <= y < py + wm_h {
        let wa = wm_data[chan_index(wm_w, x - px, y - py, 3)];
        lemma_effective_alpha_bounds(wa, opacity_percent, use_source_alpha);
        lemma_blend_chan_bounds(
            base_data[chan_index(base_w, x, y, c)],
            wm_data[chan_index(wm_w, x - px, y - py, c)],
            effective_alpha(wa, opacity_percent, use_source_alpha),
        );
    }
}

/// An opacity percentage of zero (without the source-alpha override) leaves
/// every blended color channel equal to the base channel: compositing a
/// watermark at opacity zero does not change the base image's colors.
pub proof fn lemma_blend_opacity_zero(b: u8, w: u8, wa: u8)
    by (nonlinear_arith)
    ensures
        blend_chan(b, w, effective_alpha(wa, 0, false)) == b as int,
{
}

/// At opacity 100 (without the source-alpha override), wherever the
/// watermark's own alpha is 255 the blended color channel equals the
/// watermark's channel: a fully opaque watermark replaces the base colors.
pub proof fn lemma_blend_opacity_full(b: u8, w: u8)
    by (nonlinear_arith)
    ensures
        blend_chan(b, w, effective_alpha(255, 100, false)) == w as int,
{
}

/// Compositing at opacity zero leaves every channel of every pixel of the
/// base image unchanged, the watermark's footprint included.
pub proof fn lemma_composite_opacity_zero(
    base_data: Seq<u8>,
    base_w: int,
    wm_data: Seq<u8>,
    wm_w: int,
    wm_h: int,
    px: int,
    py: int,
    x: int,
    y: int,
    c: int,
)
    requires
        0 <= c < 4,
    ensures
        composited_chan(base_data, base_w, wm_data, wm_w, wm_h, px, py, 0, false, x, y, c)
            == base_data[chan_index(base_w, x, y, c)] as int,
{
    if c < 3 && px <= x < px + wm_w && py <= y < py + wm_h {
        lemma_blend_opacity_zero(
            base_data[chan_index(base_w, x, y, c)],
            wm_data[chan_index(wm_w, x - px, y - py, c)],
            wm_data[chan_index(wm_w, x - px, y - py, 3)],
        );
    }
}

/// Compositing any watermark at opacity zero (without the source-alpha
/// override) is the identity on the whole base image: every channel of
/// every pixel, inside and outside the footprint, is returned unchanged.
pub proof fn lemma_composited_rgba_opacity_zero(
    base_data: Seq<u8>,
    base_w: int,
    base_h: int,
    wm_data: Seq<u8>,
    wm_w: int,
    wm_h: int,
    px: int,
    py: int,
)
    requires
        0 <= base_w,
        0 <= base_h,
        base_data.len() == 4 * base_w * base_h,
    ensures
        composited_rgba(base_data, base_w, base_h, wm_data, wm_w, wm_h, px, py, 0, false)
            == base_data,
{
    let target = composited_rgba(base_data, base_w, base_h, wm_data, wm_w, wm_h, px, py, 0, false);
    assert forall|i: int| 0 <= i < base_data.len() implies target[i] == base_data[i] by {
        lemma_chan_index_decompose(base_w, base_h, i);
        lemma_composite_opacity_zero(
            base_data,
            base_w,
            wm_data,
            wm_w,
            wm_h,
            px,
            py,
            (i / 4) % base_w,
            (i / 4) / base_w,
            i % 4,
        );
    }
    assert(target =~= base_data);
}

/// Compositing at opacity 100 (without the source-alpha override) replaces
/// the color channels of every pixel under the watermark's footprint whose
/// watermark alpha is 255 with the watermark's own channels.
pub proof fn lemma_composite_opacity_full(
    base_data: Seq<u8>,
    base_w: int,
    wm_data: Seq<u8>,
    wm_w: int,
    wm_h: int,
    px: int,
    py: int,
    x: int,
    y: int,
    c: int,
)
    requires
        0 <= c < 3,
        px <= x < px + wm_w,
        py <= y < py + wm_h,
        wm_data[chan_index(wm_w, x - px, y - py, 3)] == 255,
    ensures
        composited_chan(base_data, base_w, wm_data, wm_w, wm_h, px, py, 100, false, x, y, c)
            == wm_data[chan_index(wm_w, x - px, y - py, c)] as int,
{
    lemma_blend_opacity_full(
        base_data[chan_index(base_w, x, y, c)],
        wm_data[chan_index(wm_w, x - px, y - py, c)],
    );
}

/// Alpha-blends `wm` onto `base` with its top-left corner at `(px, py)`,
/// honoring either the watermark's own alpha channel or the caller-supplied
/// opacity percentage. The caller validates the placement first, so the
/// whole watermark lands inside the base; the output keeps the base's
/// dimensions and its alpha channel.
pub fn composite(
    base: &ImageBuffer,
    wm: &ImageBuffer,
    px: u32,
    py: u32,
    opacity_percent: u8,
    use_source_alpha: bool,
) -> (out: ImageBuffer)
    requires
        base.wf(),
        wm.wf(),
        opacity_percent <= 100,
        px + wm.width <= base.width,
        py + wm.height <= base.height,
    ensures
        out.wf(),
        out.width == base.width,
        out.height == base.height,
        forall|x: int, y: int, c: int|
            0 <= x < base.width && 0 <= y < base.height && 0 <= c < 4
                ==> out.chan(x, y, c) == composited_chan(
                base.data@,
                base.width as int,
                wm.data@,
                wm.width as int,
                wm.height as int,
                px as int,
                py as int,
                opacity_percent,
                use_source_alpha,
                x,
                y,
                c,
            ),
        out.data@ == composited_rgba(
            base.data@,
            base.width as int,
            base.height as int,
            wm.data@,
            wm.width as int,
            wm.height as int,
            px as int,
            py as int,
            opacity_percent,
            use_source_alpha,
        ),
{
    let bw = base.width;
    let bh = base.height;
    let mut data: Vec<u8> = Vec::new();
    let mut y: u32 = 0;
    while y < bh
        invariant
            base.wf(),
            wm.wf(),
            opacity_percent <= 100,
            px + wm.width <= bw,
            py + wm.height <= bh,
            bw == base.width,
            bh == base.height,
            y <= bh,
            data.len() == 4 * ((y as int) * (bw as int)),
            forall|xx: int, yy: int, c: int|
                0 <= xx < bw && 0 <= yy < y && 0 <= c < 4
                    ==> data@[chan_index(bw as int, xx, yy, c)] == composited_chan(
                    base.data@,
                    bw as int,
                    wm.data@,
                    wm.width as int,
                    wm.height as int,
                    px as int,
                    py as int,
                    opacity_percent,
                    use_source_alpha,
                    xx,
                    yy,
                    c,
                ),
        decreases bh - y,
    {
        let mut x: u32 = 0;
        while x < bw
            invariant
                base.wf(),
                wm.wf(),
                opacity_percent <= 100,
                px + wm.width <= bw,
                py + wm.height <= bh,
                bw == base.width,
                bh == base.height,
                y < bh,
                x <= bw,
                data.len() == 4 * ((y as int) * (bw as int) + (x as int)),
                forall|xx: int, yy: int, c: int|
                    0 <= xx < bw && 0 <= yy < y && 0 <= c < 4
                        ==> data@[chan_index(bw as int, xx, yy, c)] == composited_chan(
                        base.data@,
                        bw as int,
                        wm.data@,
                        wm.width as int,
                        wm.height as int,
                        px as int,
                        py as int,
                        opacity_percent,
                        use_source_alpha,
                        xx,
                        yy,
                        c,
                    ),
                forall|xx: int, c: int|
                    0 <= xx < x && 0 <= c < 4
                        ==> data@[chan_index(bw as int, xx, y as int, c)] == composited_chan(
                        base.data@,
                        bw as int,
                        wm.data@,
                        wm.width as int,
                        wm.height as int,
                        px as int,
                        py as int,
                        opacity_percent,
                        use_source_alpha,
                        xx,
                        y as int,
                        c,
                    ),
            decreases bw - x,
        {
            proof {
                lemma_chan_index_bounds(base.width as int, base.height as int, x as int, y as int, 0);
            }
            let base_idx: usize = channel_offset(bw, x, y);
            let b0 = base.data[base_idx];
            let b1 = base.data[base_idx + 1];
            let b2 = base.data[base_idx + 2];
            let b3 = base.data[base_idx + 3];
            let inside = px <= x && x < px + wm.width && py <= y && y < py + wm.height;
            let ghost data_before = data@;
            if inside {
                proof {
                    lemma_chan_index_bounds(
                        wm.width as int,
                        wm.height as int,
                        x as int - px as int,
                        y as int - py as int,
                        0,
                    );
                }
                let wm_idx: usize = channel_offset(wm.width, x - px, y - py);
                let wa = wm.data[wm_idx + 3];
                proof {
                    lemma_effective_alpha_bounds(wa, opacity_percent, use_source_alpha);
                }
                let a: u32 = if use_source_alpha {
                    wa as u32
                } else {
                    (wa as u32) * (opacity_percent as u32) / 100
                };
                let w0 = wm.data[wm_idx];
                let w1 = wm.data[wm_idx + 1];
                let w2 = wm.data[wm_idx + 2];
                proof {
                    lemma_blend_no_overflow(b0, w0, a as int);
                    lemma_blend_no_overflow(b1, w1, a as int);
                    lemma_blend_no_overflow(b2, w2, a as int);
                    lemma_blend_chan_bounds(b0, w0, a as int);
                    lemma_blend_chan_bounds(b1, w1, a as int);
                    lemma_blend_chan_bounds(b2, w2, a as int);
                }
                data.push((((b0 as u32) * (255 - a) + (w0 as u32) * a) / 255) as u8);
                data.push((((b1 as u32) * (255 - a) + (w1 as u32) * a) / 255) as u8);
                data.push((((b2 as u32) * (255 - a) + (w2 as u32) * a) / 255) as u8);
                data.push(b3);
            } else {
                data.push(b0);
                data.push(b1);
                data.push(b2);
                data.push(b3);
            }
            proof {
                lemma_composite_step(
                    base.data@,
                    bw as int,
                    wm.data@,
                    wm.width as int,
                    wm.height as int,
                    px as int,
                    py as int,
                    opacity_percent,
                    use_source_alpha,
                    data_before,
                    data@,
                    x as int,
                    y as int,
                );
            }
            x = x + 1;
        }
        y = y + 1;
        assert(data.len() == 4 * ((y as int) * (bw as int))) by (nonlinear_arith)
            requires
                data.len() == 4 * ((y as int - 1) * (bw as int) + (bw as int)),
        ;
    }
    proof {
        assert(4 * ((bh as int) * (bw as int)) == 4 * (bw as int) * (bh as int))
            by (nonlinear_arith);
        let target = composited_rgba(
            base.data@,
            bw as int,
            bh as int,
            wm.data@,
            wm.width as int,
            wm.height as int,
            px as int,
            py as int,
            opacity_percent,
            use_source_alpha,
        );
        assert forall|i: int| 0 <= i < data@.len() implies data@[i] == target[i] by {
            lemma_chan_index_decompose(bw as int, bh as int, i);
            lemma_composited_chan_bounds(
                base.data@,
                bw as int,
                wm.data@,
                wm.width as int,
                wm.height as int,
                px as int,
                py as int,
                opacity_percent,
                use_source_alpha,
                (i / 4) % (bw as int),
                (i / 4) / (bw as int),
                i % 4,
            );
        }
        assert(data@ =~= target);
    }
    ImageBuffer { width: bw, height: bh, data }
}

/// Flat offset of the first channel of pixel `(x, y)` in a buffer `w` pixels
/// wide; the caller shows that the pixel lies inside the grid.
fn channel_offset(w: u32, x: u32, y: u32) -> (r: usize)
    requires
        x < w,
        4 * ((y as int) * (w as int) + (x as int)) + 4 <= usize::MAX,
    ensures
        r == chan_index(w as int, x as int, y as int, 0),
        r + 4 <= usize::MAX,
{
    proof {
        assert((y as int) * (w as int) + (x as int) >= 0) by (nonlinear_arith)
            requires
                x >= 0 && y >= 0 && w >= 0,
        ;
    }
    4 * ((y as usize) * (w as usize) + (x as usize))
}

/// After appending the four composited channels of pixel `(x, y)` to a prefix
/// that already mirrors every earlier output position, the longer prefix
/// mirrors `(x, y)` as well and disturbs none before it.
proof fn lemma_composite_step(
    base_data: Seq<u8>,
    base_w: int,
    wm_data: Seq<u8>,
    wm_w: int,
    wm_h: int,
    px: int,
    py: int,
    opacity_percent: u8,
    use_source_alpha: bool,
    before: Seq<u8>,
    after: Seq<u8>,
    x: int,
    y: int,
)
    requires
        0 <= x < base_w,
        0 <= y,
        before.len() == 4 * (y * base_w + x),
        after.len() == before.len() + 4,
        forall|i: int| 0 <= i < before.len() ==> after[i] == before[i],
        forall|c: int|
            0 <= c < 4 ==> #[trigger] after[before.len() + c] == composited_chan(
                base_data,
                base_w,
                wm_data,
                wm_w,
                wm_h,
                px,
                py,
                opacity_percent,
                use_source_alpha,
                x,
                y,
                c,
            ),
        forall|xx: int, yy: int, c: int|
            0 <= xx < base_w && 0 <= yy < y && 0 <= c < 4
                ==> before[chan_index(base_w, xx, yy, c)] == composited_chan(
                base_data,
                base_w,
                wm_data,
                wm_w,
                wm_h,
                px,
                py,
                opacity_percent,
                use_source_alpha,
                xx,
                yy,
                c,
            ),
        forall|xx: int, c: int|
            0 <= xx < x && 0 <= c < 4
                ==> before[chan_index(base_w, xx, y, c)] == composited_chan(
                base_data,
                base_w,
                wm_data,
                wm_w,
                wm_h,
                px,
                py,
                opacity_percent,
                use_source_alpha,
                xx,
                y,
                c,
            ),
    ensures
        forall|xx: int, yy: int, c: int|
            0 <= xx < base_w && 0 <= yy < y && 0 <= c < 4
                ==> after[chan_index(base_w, xx, yy, c)] == composited_chan(
                base_data,
                base_w,
                wm_data,
                wm_w,
                wm_h,
                px,
                py,
                opacity_percent,
                use_source_alpha,
                xx,
                yy,
                c,
            ),
        forall|xx: int, c: int|
            0 <= xx < x + 1 && 0 <= c < 4
                ==> after[chan_index(base_w, xx, y, c)] == composited_chan(
                base_data,
                base_w,
                wm_data,
                wm_w,
                wm_h,
                px,
                py,
                opacity_percent,
                use_source_alpha,
                xx,
                y,
                c,
            ),
{
    assert forall|xx: int, yy: int, c: int|
        0 <= xx < base_w && 0 <= yy < y && 0 <= c < 4 implies after[chan_index(base_w, xx, yy, c)]
        == composited_chan(
        base_data,
        base_w,
        wm_data,
        wm_w,
        wm_h,
        px,
        py,
        opacity_percent,
        use_source_alpha,
        xx,
        yy,
        c,
    ) by {
        lemma_chan_index_bounds(base_w, y + 1, xx, yy, c);
        lemma_chan_index_order(base_w, xx, yy, c, x, y);
        assert(chan_index(base_w, x, y, 0) == before.len());
    }
    assert forall|xx: int, c: int| 0 <= xx < x + 1 && 0 <= c < 4 implies after[chan_index(
        base_w,
        xx,
        y,
        c,
    )] == composited_chan(
        base_data,
        base_w,
        wm_data,
        wm_w,
        wm_h,
        px,
        py,
        opacity_percent,
        use_source_alpha,
        xx,
        y,
        c,
    ) by {
        if xx < x {
            lemma_chan_index_order(base_w, xx, y, c, x, y);
            assert(chan_index(base_w, x, y, 0) == before.len());
        } else {
            assert(chan_index(base_w, x, y, c) == before.len() + c);
        }
    }
}

} // verus!
