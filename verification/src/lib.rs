//! A bounded image transformation pipeline: decode an input image, optionally
//! crop, optionally resize, optionally alpha-composite a watermark, then
//! re-encode into a target format with quality controls.
//!
//! The pipeline works on tightly packed RGBA buffers. Geometry validation and
//! the per-pixel compositing arithmetic are carried out here; the codecs and
//! the Lanczos resampler of an external image library are called through
//! narrow, documented adapters.

pub mod buffer;
pub mod codec;
pub mod compositor;
pub mod errors;
pub mod geometry;
pub mod pipeline;
pub mod resample;
