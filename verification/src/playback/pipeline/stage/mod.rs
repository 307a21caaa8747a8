//! The stages of a track pipeline and the samples passed between them.

pub mod channel_converter;
pub mod decoder;
pub mod resampler;

use vstd::prelude::*;

use crate::playback::pipeline::{AudioFormat, AudioPipelineConfiguration};
use crate::track::Track;

verus! {

/// Samples passed from one stage to the next; `End` carries the last samples of
/// the track so that later stages flush what they hold.
pub enum AudioPipelineSamples {
    Chunk(Vec<u32>),
    End(Vec<u32>),
}

/// Whether `samples` are the last of the track.
pub open spec fn is_end(samples: AudioPipelineSamples) -> bool {
    samples is End
}

/// The samples carried, in order.
pub open spec fn carried(samples: AudioPipelineSamples) -> Seq<u32> {
    match samples {
        AudioPipelineSamples::Chunk(samples) => samples@,
        AudioPipelineSamples::End(samples) => samples@,
    }
}

impl AudioPipelineSamples {
    /// New samples of the same kind (`Chunk` or `End`) as `self`.
    pub fn new_like(&self, samples: Vec<u32>) -> (like: Self)
        ensures
            is_end(like) == is_end(*self),
            carried(like) == samples@,
    {
        match self {
            AudioPipelineSamples::Chunk(_) => AudioPipelineSamples::Chunk(samples),
            AudioPipelineSamples::End(_) => AudioPipelineSamples::End(samples),
        }
    }

    /// Whether these are the last samples of the track.
    pub fn is_end(&self) -> (end: bool)
        ensures
            end == is_end(*self),
    {
        match self {
            AudioPipelineSamples::End(_) => true,
            AudioPipelineSamples::Chunk(_) => false,
        }
    }

    /// Number of samples carried.
    pub fn len(&self) -> (len: usize)
        ensures
            len == carried(*self).len(),
    {
        match self {
            AudioPipelineSamples::Chunk(samples) | AudioPipelineSamples::End(samples) => samples.len(),
        }
    }

    /// Whether no samples are carried.
    pub fn is_empty(&self) -> (empty: bool)
        ensures
            empty == (carried(*self).len() == 0),
    {
        self.len() == 0
    }

    /// The samples carried.
    pub fn samples(&self) -> (samples: &Vec<u32>)
        ensures
            samples@ == carried(*self),
    {
        match self {
            AudioPipelineSamples::Chunk(samples) | AudioPipelineSamples::End(samples) => samples,
        }
    }
}

/// What the stages of one track pipeline read: the pipeline settings and the track.
pub struct AudioTrackPipelineConfiguration {
    pub volume_percentage: u8,
    pub output: AudioFormat,
    pub track: Track,
}

impl AudioTrackPipelineConfiguration {
    /// The pipeline settings applied to `track`.
    pub fn new(pipeline_configuration: AudioPipelineConfiguration, track: Track) -> (configuration:
        Self)
        ensures
            configuration.volume_percentage == pipeline_configuration.volume_percentage,
            configuration.output == pipeline_configuration.output,
            configuration.track == track,
    {
        AudioTrackPipelineConfiguration {
            track,
            volume_percentage: pipeline_configuration.volume_percentage,
            output: pipeline_configuration.output,
        }
    }
}

} // verus!
