//! Bookkeeping of the pipeline that turns one track into output samples.

use vstd::prelude::*;

use crate::playback::pipeline::{AudioFormat, AudioPipelineError};
use crate::track::Track;

verus! {

/// Progress of a track pipeline.
#[derive(Clone, Copy, Debug, PartialEq, Eq, Structural)]
pub enum AudioTrackPipelineStatus {
    Ready,
    Ongoing,
    Finished,
}

/// What the pipeline keeps of its current track: the track, the output format its
/// samples are converted to, how many output frames were delivered and whether
/// the track has ended.
pub struct AudioTrackPipelineState {
    pub status: AudioTrackPipelineStatus,
    pub track: Track,
    pub output: AudioFormat,
    pub frames_delivered: u64,
}

impl AudioTrackPipelineState {
    /// A track pipeline that has not delivered anything yet.
    pub fn new(track: Track, output: AudioFormat) -> (state: Self)
        ensures
            state.status == AudioTrackPipelineStatus::Ready,
            state.track == track,
            state.output == output,
            state.frames_delivered == 0,
    {
        AudioTrackPipelineState {
            status: AudioTrackPipelineStatus::Ready,
            track,
            output,
            frames_delivered: 0,
        }
    }

    /// Records that the stages produced `sample_count` interleaved output samples,
    /// the last ones of the track when `end_of_track`. A finished track produces
    /// nothing more: recording on it fails with `AudioTrackPipelineFinished`.
    pub fn record_produced(&mut self, sample_count: usize, end_of_track: bool) -> (result: Result<
        (),
        AudioPipelineError,
    >)
        requires
            old(self).output.channels > 0,
            old(self).frames_delivered + (sample_count as int) / (old(self).output.channels as int)
                <= u64::MAX,
        ensures
            old(self).status == AudioTrackPipelineStatus::Finished ==> result == Err::<
                (),
                _,
            >(AudioPipelineError::AudioTrackPipelineFinished) && *final(self) == *old(self),
            old(self).status != AudioTrackPipelineStatus::Finished ==> {
                &&& result is Ok
                &&& final(self).frames_delivered == old(self).frames_delivered + (sample_count as int)
                    / (old(self).output.channels as int)
                &&& final(self).status == if end_of_track {
                    AudioTrackPipelineStatus::Finished
                } else {
                    old(self).status
                }
                &&& final(self).track == old(self).track
                &&& final(self).output == old(self).output
            },
    {
        if self.status == AudioTrackPipelineStatus::Finished {
            return Err(AudioPipelineError::AudioTrackPipelineFinished);
        }
        let channels = self.output.channels as usize;
        let frames = (sample_count / channels) as u64;
        self.frames_delivered = self.frames_delivered + frames;
        if end_of_track {
            self.status = AudioTrackPipelineStatus::Finished;
        }
        Ok(())
    }

    /// Records that the track continues from `timestamp` (in frames) after a seek.
    pub fn seeked_to(&mut self, timestamp: u64)
        ensures
            final(self).frames_delivered == timestamp,
            final(self).status == old(self).status,
            final(self).track == old(self).track,
            final(self).output == old(self).output,
    {
        self.frames_delivered = timestamp;
    }
}

} // verus!
