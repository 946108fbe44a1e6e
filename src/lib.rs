//! Image-processing pipeline core: an RGB image value type, processing
//! stages (invert, resize) and a linear pipeline that chains them.
//!
//! The library is generic over the sample type. The per-sample arithmetic
//! (complementing a sample, resampling a buffer with a kernel) is handed in
//! by the caller as closures; everything around it is verified here.
mod error;
mod image;
mod invert;
mod pipeline;
mod resize;

pub use error::ProcessError;
pub use image::{flatten, lemma_flatten_round_trip, lemma_pixels_round_trip, pixels_of, PixelIter, RGB};
pub use invert::{complemented, lemma_invert_twice, InvertProcessor};
pub use resize::{lemma_resize_output_length, target_of, ResizeJob, ResizeProcessor, Type};
pub use pipeline::{chain_slots, lemma_wiring_mismatch_stops, run_from, same_chain, same_config, stage_result, KnownProcessor, LinearPipeline};
