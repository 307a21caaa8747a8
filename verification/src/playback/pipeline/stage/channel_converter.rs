//! Conversion between mono and stereo sample streams.

use vstd::prelude::*;
use vstd::string::StringExecFns;

use crate::log::{decimal, decimal_text};

use crate::playback::pipeline::stage::{
    AudioPipelineSamples, AudioTrackPipelineConfiguration, carried, is_end,
};

verus! {

/// A channel conversion that the converter does not support.
#[derive(Clone, Copy, Debug, PartialEq, Eq, Structural)]
pub enum AudioChannelConverterError {
    UnsupportedConversion(u16, u16),
}

impl AudioChannelConverterError {
    /// The error's message.
    pub open spec fn message_text(self) -> Seq<char> {
        match self {
            AudioChannelConverterError::UnsupportedConversion(from, to) => "unsupported conversion: "@
                + decimal(from as nat) + " to "@ + decimal(to as nat) + "."@,
        }
    }

    /// See `message_text`.
    pub fn message(&self) -> (text: String)
        ensures
            text@ == self.message_text(),
    {
        match self {
            AudioChannelConverterError::UnsupportedConversion(from, to) => {
                let from_text = decimal_text(*from as u64);
                let to_text = decimal_text(*to as u64);
                String::from_str("unsupported conversion: ").concat(from_text.as_str()).concat(
                    " to ",
                ).concat(to_text.as_str()).concat(".")
            },
        }
    }
}

/// The result of a conversion. Down-mixing averages the two samples of each stereo
/// frame; as that is arithmetic on the samples' floating-point values, the frames
/// come back as pairs for the caller to average.
pub enum ConvertedSamples {
    Samples(Vec<u32>),
    FramesToAverage(Vec<(u32, u32)>),
}

/// Mono samples with every sample doubled into a left and a right sample.
pub open spec fn upmixed(samples: Seq<u32>) -> Seq<u32> {
    Seq::new(2 * samples.len(), |i: int| samples[i / 2])
}

/// The complete stereo frames of `samples` as (left, right) pairs; an odd last
/// sample is dropped.
pub open spec fn stereo_frames(samples: Seq<u32>) -> Seq<(u32, u32)> {
    Seq::new(samples.len() / 2, |i: int| (samples[2 * i], samples[2 * i + 1]))
}

/// Up-mixing mono to stereo puts each mono sample in both channels of its frame:
/// the stereo frames of the up-mixed samples are the mono samples, each doubled.
pub proof fn lemma_upmixed_frames_repeat_samples(samples: Seq<u32>)
    ensures
        stereo_frames(upmixed(samples)).len() == samples.len(),
        forall|i: int|
            0 <= i < samples.len() ==> #[trigger] stereo_frames(upmixed(samples))[i] == (
                samples[i],
                samples[i],
            ),
{
    assert forall|i: int| 0 <= i < samples.len() implies #[trigger] stereo_frames(upmixed(samples))[i]
        == (samples[i], samples[i]) by {
        assert((2 * i) / 2 == i);
        assert((2 * i + 1) / 2 == i);
    }
}

/// Up-mixing mono to stereo and then taking the stereo frames gives back each mono
/// sample, doubled, in order.
pub proof fn lemma_upmixed_frames_are_doubled_samples(samples: Seq<u32>)
    ensures
        stereo_frames(upmixed(samples)) =~= samples.map(|i: int, sample: u32| (sample, sample)),
{
    lemma_upmixed_frames_repeat_samples(samples);
}

/// Up-mixing mono to stereo and then down-mixing back to mono gives the original
/// samples, for any way of merging a frame's two samples that keeps a frame of two
/// equal samples as that sample (as averaging does).
pub proof fn lemma_upmix_then_downmix_restores(samples: Seq<u32>, merge: spec_fn(u32, u32) -> u32)
    requires
        forall|sample: u32| #[trigger] merge(sample, sample) == sample,
    ensures
        stereo_frames(upmixed(samples)).map(|i: int, frame: (u32, u32)| merge(frame.0, frame.1))
            =~= samples,
{
    lemma_upmixed_frames_repeat_samples(samples);
    let merged = stereo_frames(upmixed(samples)).map(|i: int, frame: (u32, u32)| merge(frame.0, frame.1));
    assert forall|i: int| 0 <= i < samples.len() implies merged[i] == samples[i] by {
        assert(stereo_frames(upmixed(samples))[i] == (samples[i], samples[i]));
        assert(merge(samples[i], samples[i]) == samples[i]);
    }
}

/// Converts interleaved samples from `input_channels` to `output_channels`.
pub struct AudioChannelConverter {}

impl AudioChannelConverter {
    /// Same channel count: the samples unchanged. Mono to stereo: each sample twice.
    /// Stereo to mono: the stereo frames, to be averaged. Anything else fails with
    /// `UnsupportedConversion(input_channels, output_channels)`.
    pub fn convert(samples: &[u32], input_channels: u16, output_channels: u16) -> (converted: Result<
        ConvertedSamples,
        AudioChannelConverterError,
    >)
        requires
            2 * samples@.len() <= usize::MAX,
        ensures
            input_channels == output_channels ==> (converted matches Ok(ConvertedSamples::Samples(out))
                && out@ == samples@),
            input_channels != output_channels && input_channels == 1 && output_channels == 2
                ==> (converted matches Ok(ConvertedSamples::Samples(out)) && out@ == upmixed(samples@)),
            input_channels != output_channels && input_channels == 2 && output_channels == 1
                ==> (converted matches Ok(ConvertedSamples::FramesToAverage(frames)) && frames@
                == stereo_frames(samples@)),
            !(input_channels == output_channels || (input_channels == 1 && output_channels == 2)
                || (input_channels == 2 && output_channels == 1)) ==> converted == Err::<
                ConvertedSamples,
                _,
            >(AudioChannelConverterError::UnsupportedConversion(input_channels, output_channels)),
    {
        if input_channels == output_channels {
            let mut copied: Vec<u32> = Vec::with_capacity(samples.len());
            let mut index: usize = 0;
            while index < samples.len()
                invariant
                    index <= samples@.len(),
                    copied@ == samples@.take(index as int),
                decreases samples@.len() - index,
            {
                copied.push(samples[index]);
                proof {
                    assert(samples@.take(index + 1) == samples@.take(index as int).push(samples@[index as int]));
                }
                index = index + 1;
            }
            proof {
                assert(samples@.take(samples@.len() as int) == samples@);
            }
            return Ok(ConvertedSamples::Samples(copied));
        }
        if input_channels == 1 && output_channels == 2 {
            let mut doubled: Vec<u32> = Vec::with_capacity(2 * samples.len());
            let mut index: usize = 0;
            while index < samples.len()
                invariant
                    index <= samples@.len(),
                    2 * samples@.len() <= usize::MAX,
                    doubled@ == upmixed(samples@.take(index as int)),
                decreases samples@.len() - index,
            {
                let sample = samples[index];
                doubled.push(sample);
                doubled.push(sample);
                proof {
                    assert(doubled@ =~= upmixed(samples@.take(index + 1)));
                }
                index = index + 1;
            }
            proof {
                assert(samples@.take(samples@.len() as int) == samples@);
            }
            return Ok(ConvertedSamples::Samples(doubled));
        }
        if input_channels == 2 && output_channels == 1 {
            let mut frames: Vec<(u32, u32)> = Vec::with_capacity(samples.len() / 2);
            let mut frame: usize = 0;
            while frame < samples.len() / 2
                invariant
                    frame <= samples@.len() / 2,
                    frames@.len() == frame,
                    forall|i: int| 0 <= i < frame ==> #[trigger] frames@[i] == stereo_frames(samples@)[i],
                decreases samples@.len() / 2 - frame,
            {
                frames.push((samples[2 * frame], samples[2 * frame + 1]));
                frame = frame + 1;
            }
            proof {
                assert(frames@ =~= stereo_frames(samples@));
            }
            return Ok(ConvertedSamples::FramesToAverage(frames));
        }
        Err(AudioChannelConverterError::UnsupportedConversion(input_channels, output_channels))
    }
}

/// Where a channel converter stage sits relative to the resampler.
#[derive(Clone, Copy, Debug, PartialEq, Eq, Structural)]
pub enum AudioPipelineChannelConverterStagePosition {
    BeforeResampling,
    AfterResampling,
}

/// A channel converter stage. Channels are removed before resampling and added
/// after it, so that the resampler works on as few channels as possible.
pub struct AudioPipelineChannelConverterStage {
    pub position: AudioPipelineChannelConverterStagePosition,
}

/// Whether a converter at `position` works for a track of `track_channels` channels
/// played on `output_channels`.
pub open spec fn channel_converter_enabled(
    position: AudioPipelineChannelConverterStagePosition,
    track_channels: i64,
    output_channels: u16,
) -> bool {
    track_channels != output_channels && match position {
        AudioPipelineChannelConverterStagePosition::AfterResampling => track_channels < output_channels,
        AudioPipelineChannelConverterStagePosition::BeforeResampling => track_channels > output_channels,
    }
}

impl AudioPipelineChannelConverterStage {
    pub fn new(position: AudioPipelineChannelConverterStagePosition) -> (stage: Self)
        ensures
            stage.position == position,
    {
        AudioPipelineChannelConverterStage { position }
    }

    /// See `channel_converter_enabled`.
    pub fn is_enabled(&self, configuration: &AudioTrackPipelineConfiguration) -> (enabled: bool)
        ensures
            enabled == channel_converter_enabled(
                self.position,
                configuration.track.channels,
                configuration.output.channels,
            ),
    {
        let input_channels = configuration.track.channels;
        let output_channels = configuration.output.channels as i64;
        if input_channels == output_channels {
            return false;
        }
        match self.position {
            AudioPipelineChannelConverterStagePosition::AfterResampling => input_channels
                < output_channels,
            AudioPipelineChannelConverterStagePosition::BeforeResampling => input_channels
                > output_channels,
        }
    }

    /// Converts `samples` from the track's channel count (as a 16-bit count) to the
    /// output's, keeping their kind (see `AudioChannelConverter::convert`).
    pub fn process_stage(
        &mut self,
        configuration: &AudioTrackPipelineConfiguration,
        samples: AudioPipelineSamples,
    ) -> (converted: Result<StageConversion, AudioChannelConverterError>)
        requires
            2 * carried(samples).len() <= usize::MAX,
        ensures
            ({
                let input_channels = configuration.track.channels as u16;
                let output_channels = configuration.output.channels;
                &&& input_channels == output_channels ==> (converted matches Ok(
                    StageConversion::Converted(out),
                ) && is_end(out) == is_end(samples) && carried(out) == carried(samples))
                &&& input_channels != output_channels && input_channels == 1 && output_channels == 2
                    ==> (converted matches Ok(StageConversion::Converted(out)) && is_end(out)
                    == is_end(samples) && carried(out) == upmixed(carried(samples)))
                &&& input_channels != output_channels && input_channels == 2 && output_channels == 1
                    ==> (converted matches Ok(StageConversion::Downmix { end_of_track, frames })
                    && end_of_track == is_end(samples) && frames@ == stereo_frames(carried(samples)))
                &&& !(input_channels == output_channels || (input_channels == 1 && output_channels
                    == 2) || (input_channels == 2 && output_channels == 1)) ==> converted == Err::<
                    StageConversion,
                    _,
                >(AudioChannelConverterError::UnsupportedConversion(input_channels, output_channels))
            }),
    {
        let input_channels = configuration.track.channels as u16;
        let output_channels = configuration.output.channels;
        match AudioChannelConverter::convert(samples.samples().as_slice(), input_channels, output_channels) {
            Ok(ConvertedSamples::Samples(converted)) => Ok(
                StageConversion::Converted(samples.new_like(converted)),
            ),
            Ok(ConvertedSamples::FramesToAverage(frames)) => Ok(
                StageConversion::Downmix { end_of_track: samples.is_end(), frames },
            ),
            Err(error) => Err(error),
        }
    }
}

/// What a channel converter stage hands on: converted samples, or stereo frames
/// to be averaged into mono samples of the given kind.
pub enum StageConversion {
    Converted(AudioPipelineSamples),
    Downmix { end_of_track: bool, frames: Vec<(u32, u32)> },
}

} // verus!
