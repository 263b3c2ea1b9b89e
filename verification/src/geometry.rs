use vstd::prelude::*;

use crate::errors::{PipelineError, RectKind};

verus! {

/// A crop or placement rectangle in pixel units.
#[derive(Clone, Copy, Debug)]
pub struct Rect {
    pub x: u32,
    pub y: u32,
    pub width: u32,
    pub height: u32,
}

/// A target size for a resize.
#[derive(Clone, Copy, Debug)]
pub struct TargetSize {
    pub width: u32,
    pub height: u32,
}

/// The rectangle lies inside an image of the given dimensions. Stated over
/// unbounded integers, so `x + width` cannot wrap around.
pub open spec fn rect_fits(r: Rect, width: u32, height: u32) -> bool {
    &&& r.x + r.width <= width
    &&& r.y + r.height <= height
}

/// Checks a rectangle against image bounds before any mutation. The sums are
/// computed in a widened integer type, so a crafted `x + width` near the
/// `u32` limit cannot wrap around and bypass the check.
pub fn validate_rect(r: &Rect, width: u32, height: u32, kind: RectKind) -> (res: Result<
    (),
    PipelineError,
>)
    ensures
        res is Ok <==> rect_fits(*r, width, height),
        res is Err ==> res == Err::<(), PipelineError>(PipelineError::OutOfBounds(kind, *r)),
{
    let xw: u64 = r.x as u64 + r.width as u64;
    let yh: u64 = r.y as u64 + r.height as u64;
    if xw <= width as u64 && yh <= height as u64 {
        Ok(())
    } else {
        Err(PipelineError::OutOfBounds(kind, *r))
    }
}

} // verus!
