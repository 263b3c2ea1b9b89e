use vstd::prelude::*;
use vstd::string::StringExecFns;

use crate::geometry::Rect;

verus! {

/// Which placement rectangle failed a bounds check.
#[derive(Clone, Copy, Debug)]
pub enum RectKind {
    Crop,
    Watermark,
}

/// The first failure of a pipeline stage. No recovery is attempted: the
/// orchestrator surfaces the first error to the caller as-is, and the error
/// value itself carries the context (which rectangle, which diagnostic).
#[derive(Debug)]
pub enum PipelineError {
    /// An input or output format tag was not recognized.
    InvalidFormat,
    /// A codec failed to parse the input or watermark bytes; carries the
    /// codec's own diagnostic text.
    DecodeError(String),
    /// A crop or watermark placement rectangle exceeds the owning image;
    /// carries which rectangle failed and its offending dimensions.
    OutOfBounds(RectKind, Rect),
    /// A malformed request value, e.g. an opacity percentage above 100.
    InvalidParameter,
    /// A codec failed to serialize the final buffer; carries the codec's own
    /// diagnostic text.
    EncodeError(String),
}

impl PipelineError {
    /// A human-readable account of the failure, with the codec's own
    /// diagnostic appended where one exists.
    pub fn message(&self) -> (r: String)
        ensures
            self is InvalidFormat ==> r@ == "unrecognized format tag"@,
            self matches PipelineError::DecodeError(m) ==> r@ == "decode failed: "@ + m@,
            self matches PipelineError::OutOfBounds(RectKind::Crop, _) ==> r@
                == "crop rectangle exceeds image bounds"@,
            self matches PipelineError::OutOfBounds(RectKind::Watermark, _) ==> r@
                == "watermark placement exceeds image bounds"@,
            self is InvalidParameter ==> r@ == "opacity must be between 0 and 100"@,
            self matches PipelineError::EncodeError(m) ==> r@ == "encode failed: "@ + m@,
    {
        match self {
            PipelineError::InvalidFormat => String::from_str("unrecognized format tag"),
            PipelineError::DecodeError(m) => String::from_str("decode failed: ").concat(
                m.as_str(),
            ),
            PipelineError::OutOfBounds(RectKind::Crop, _) => String::from_str(
                "crop rectangle exceeds image bounds",
            ),
            PipelineError::OutOfBounds(RectKind::Watermark, _) => String::from_str(
                "watermark placement exceeds image bounds",
            ),
            PipelineError::InvalidParameter => String::from_str(
                "opacity must be between 0 and 100",
            ),
            PipelineError::EncodeError(m) => String::from_str("encode failed: ").concat(
                m.as_str(),
            ),
        }
    }
}

} // verus!
