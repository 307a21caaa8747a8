//! Sizes shared by the playback threads.

use vstd::prelude::*;

verus! {

/// Capacity, in samples, of the queue between the pipeline and the output engine.
pub const SAMPLE_BUFFER_CAPACITY: usize = 19200;

/// Output chunk size of the resampler. Together with the sub chunk size it sets the
/// balance between resampling quality and latency (a ratio of 100 to 1000 is
/// recommended); the values favour quality.
pub const RESAMPLER_CHUNK_SIZE: usize = 2048;

/// Sub chunk size of the resampler (see `RESAMPLER_CHUNK_SIZE`).
pub const RESAMPLER_SUB_CHUNK_SIZE: usize = 2;

} // verus!
