//! The resampler stage's bookkeeping: warm-up, flushing and the ranges of output
//! it keeps. The resampling itself is arithmetic on the samples' floating-point
//! values, done by the driving thread with the values this state hands it.

use vstd::prelude::*;
use vstd::string::StringExecFns;

use crate::playback::pipeline::AudioFormat;
use crate::playback::pipeline::stage::AudioTrackPipelineConfiguration;

verus! {

/// Failures of the resampler. Errors of the resampling library carry their message.
#[derive(Clone, Debug, PartialEq, Eq)]
pub enum AudioResamplerError {
    ResamplerBuildFailed(String),
    ResamplerAdapterBuildFailed(String),
    Resampler(String),
}

impl AudioResamplerError {
    /// The error's message.
    pub open spec fn message_text(self) -> Seq<char> {
        match self {
            AudioResamplerError::ResamplerBuildFailed(message) => "failed to build resampler: "@
                + message@,
            AudioResamplerError::ResamplerAdapterBuildFailed(message) => "failed to build resampler adapter: "@
                + message@,
            AudioResamplerError::Resampler(message) => "resampler error: "@ + message@,
        }
    }

    /// See `message_text`.
    pub fn message(&self) -> (text: String)
        ensures
            text@ == self.message_text(),
    {
        match self {
            AudioResamplerError::ResamplerBuildFailed(message) => String::from_str(
                "failed to build resampler: ",
            ).concat(message.as_str()),
            AudioResamplerError::ResamplerAdapterBuildFailed(message) => String::from_str(
                "failed to build resampler adapter: ",
            ).concat(message.as_str()),
            AudioResamplerError::Resampler(message) => String::from_str("resampler error: ").concat(
                message.as_str(),
            ),
        }
    }
}

/// Whether the resampler still skips its initial delay, resamples, or has flushed.
#[derive(Clone, Copy, Debug, PartialEq, Eq, Structural)]
pub enum AudioResamplerStatus {
    Resampling,
    /// Output frames of delay that are still to be skipped.
    Warmup(usize),
    Finished,
}

/// Whether whole input chunks are resampled (excess input is kept for the next
/// call), or everything left is pushed through at the end of the track.
#[derive(Clone, Copy, Debug, PartialEq, Eq, Structural)]
pub enum ResamplingMode {
    Resample,
    Flush,
}

/// The smaller of two channel counts: the resampler works on the channels that
/// both the track and the output have.
pub open spec fn spec_resampling_channels(input_channels: u16, output_channels: u16) -> u16 {
    if input_channels <= output_channels {
        input_channels
    } else {
        output_channels
    }
}

/// The range of the kernel's output buffer to keep, in samples, after it wrote
/// `frames_written` frames of `channels` samples: at most `output_frames_max`
/// frames, and when flushing at most `output_frames_left`; the delay frames still
/// to skip during warm-up are cut from the front. The range is empty when its
/// start is not below its end.
pub open spec fn spec_output_samples_range(
    status: AudioResamplerStatus,
    mode: ResamplingMode,
    frames_written: usize,
    output_frames_left: usize,
    output_frames_max: usize,
    channels: usize,
) -> (int, int) {
    let frames = if frames_written <= output_frames_max {
        frames_written as int
    } else {
        output_frames_max as int
    };
    let kept = if mode == ResamplingMode::Flush && output_frames_left < frames {
        output_frames_left as int
    } else {
        frames
    };
    (
        match status {
            AudioResamplerStatus::Warmup(warmup) => warmup * channels,
            _ => 0,
        },
        kept * channels,
    )
}

/// The status after the kernel produced the output range `(start, end)` (in
/// samples of `channels` channels): during warm-up, the frames before the smaller
/// bound were delay frames and are counted off; once none is left the resampler
/// resamples. Other statuses stay.
pub open spec fn spec_status_after_output(
    status: AudioResamplerStatus,
    start: int,
    end: int,
    channels: usize,
) -> AudioResamplerStatus {
    match status {
        AudioResamplerStatus::Warmup(warmup) => {
            let skipped = if start <= end {
                start
            } else {
                end
            } / (channels as int);
            let remaining = warmup - if skipped <= warmup {
                skipped
            } else {
                warmup as int
            };
            if remaining == 0 {
                AudioResamplerStatus::Resampling
            } else {
                AudioResamplerStatus::Warmup(remaining as usize)
            }
        },
        _ => status,
    }
}

/// How far one resampling call has come through its input: the input frames not
/// yet read, the output frames still owed (when flushing), and where the kernel
/// reads next and how much of a partial chunk it may take.
#[derive(Clone, Copy, Debug, PartialEq, Eq, Structural)]
pub struct ResamplingPass {
    pub input_frames_left: usize,
    pub output_frames_left: usize,
    pub input_offset: usize,
    pub partial_len: Option<usize>,
}

/// The resampler's bookkeeping between calls.
pub struct AudioResamplerState {
    pub input: AudioFormat,
    pub output: AudioFormat,
    pub channels: u16,
    pub status: AudioResamplerStatus,
    pub resampling_mode: ResamplingMode,
    pub total_samples_read: usize,
    pub total_samples_delivered: usize,
    /// Input samples that the last call did not read, kept for the next one.
    pub leftover: Vec<u32>,
}

impl AudioResamplerState {
    /// A resampler from `input_*` to `output_*` whose resampling kernel delays its
    /// output by `output_delay` frames, which are skipped.
    pub fn new(
        input_sample_rate: u32,
        input_channels: u16,
        output_sample_rate: u32,
        output_channels: u16,
        output_delay: usize,
    ) -> (state: Self)
        ensures
            state.input == (AudioFormat { sample_rate: input_sample_rate, channels: input_channels }),
            state.output == (AudioFormat { sample_rate: output_sample_rate, channels: output_channels }),
            state.channels == spec_resampling_channels(input_channels, output_channels),
            state.status == AudioResamplerStatus::Warmup(output_delay),
            state.resampling_mode == ResamplingMode::Resample,
            state.total_samples_read == 0,
            state.total_samples_delivered == 0,
            state.leftover@.len() == 0,
    {
        let channels = if input_channels <= output_channels {
            input_channels
        } else {
            output_channels
        };
        AudioResamplerState {
            input: AudioFormat { sample_rate: input_sample_rate, channels: input_channels },
            output: AudioFormat { sample_rate: output_sample_rate, channels: output_channels },
            channels,
            status: AudioResamplerStatus::Warmup(output_delay),
            resampling_mode: ResamplingMode::Resample,
            total_samples_read: 0,
            total_samples_delivered: 0,
            leftover: Vec::new(),
        }
    }

    /// The range of the kernel's output buffer to keep after it wrote
    /// `frames_written` frames of `channels` samples: at most `output_frames_max`
    /// frames, and when flushing at most `output_frames_left`; the delay frames still
    /// to skip during warm-up are cut from the front. The range is given in samples
    /// and is empty when its start is not below its end.
    pub fn get_output_samples_range(
        &self,
        frames_written: usize,
        output_frames_left: usize,
        output_frames_max: usize,
        channels: usize,
    ) -> (range: (usize, usize))
        requires
            output_frames_max * channels <= usize::MAX,
            self.status matches AudioResamplerStatus::Warmup(warmup) ==> warmup * channels
                <= usize::MAX,
        ensures
            (range.0 as int, range.1 as int) == spec_output_samples_range(
                self.status,
                self.resampling_mode,
                frames_written,
                output_frames_left,
                output_frames_max,
                channels,
            ),
    {
        let mut output_frames = if frames_written <= output_frames_max {
            frames_written
        } else {
            output_frames_max
        };
        if self.resampling_mode == ResamplingMode::Flush && output_frames_left < output_frames {
            output_frames = output_frames_left;
        }
        proof {
            assert(output_frames * channels <= output_frames_max * channels) by (nonlinear_arith)
                requires
                    output_frames <= output_frames_max,
            ;
        }
        let last_resampled_sample_index = output_frames * channels;
        let first_resampled_sample_index = match self.status {
            AudioResamplerStatus::Warmup(warmup_frames) => warmup_frames * channels,
            _ => 0,
        };
        (first_resampled_sample_index, last_resampled_sample_index)
    }

    /// Whether to run the kernel again: while resampling, as long as a whole input
    /// chunk (`input_frames_next` frames) is left; while flushing, as long as output
    /// frames are owed.
    pub fn should_keep_resampling(
        &self,
        input_frames_left: usize,
        output_frames_left: usize,
        input_frames_next: usize,
    ) -> (keep: bool)
        ensures
            keep == match self.resampling_mode {
                ResamplingMode::Flush => output_frames_left != 0,
                ResamplingMode::Resample => input_frames_left >= input_frames_next,
            },
    {
        match self.resampling_mode {
            ResamplingMode::Flush => output_frames_left != 0,
            ResamplingMode::Resample => input_frames_left >= input_frames_next,
        }
    }

    /// How much of a partial input chunk the kernel may take: none while resampling
    /// (whole chunks only), all `input_frames` while flushing.
    pub fn get_indexing_partial_len(&self, input_frames: usize) -> (partial_len: Option<usize>)
        ensures
            partial_len == match self.resampling_mode {
                ResamplingMode::Flush => Some(input_frames),
                ResamplingMode::Resample => None,
            },
    {
        match self.resampling_mode {
            ResamplingMode::Flush => Some(input_frames),
            ResamplingMode::Resample => None,
        }
    }

    /// Counts down the warm-up after the kernel produced the output range
    /// `(start, end)` (in samples of `channels` channels): the frames before the
    /// smaller bound are delay frames that were skipped. Returns whether the warm-up
    /// goes on, in which case the rest of the iteration is skipped.
    pub fn advance_warmup(&mut self, start: usize, end: usize, channels: usize) -> (warming_up: bool)
        requires
            channels > 0,
        ensures
            final(self).status == spec_status_after_output(old(self).status, start as int, end as int, channels),
            warming_up == (final(self).status is Warmup),
            final(self).total_samples_read == old(self).total_samples_read,
            final(self).total_samples_delivered == old(self).total_samples_delivered,
            final(self).resampling_mode == old(self).resampling_mode,
            final(self).channels == old(self).channels,
            final(self).input == old(self).input,
            final(self).output == old(self).output,
    {
        if let AudioResamplerStatus::Warmup(warmup_frames) = self.status {
            let smaller = if start <= end {
                start
            } else {
                end
            };
            let skipped = smaller / channels;
            let consumed = if skipped <= warmup_frames {
                skipped
            } else {
                warmup_frames
            };
            let remaining = warmup_frames - consumed;
            if remaining == 0 {
                self.status = AudioResamplerStatus::Resampling;
                false
            } else {
                self.status = AudioResamplerStatus::Warmup(remaining);
                true
            }
        } else {
            false
        }
    }

    /// Starts a pass over `input_frames` input frames that owes `output_frames_left`
    /// output frames: the kernel reads from the first frame, whole chunks only while
    /// resampling and whatever is there while flushing.
    pub fn start_pass(&self, input_frames: usize, output_frames_left: usize) -> (pass: ResamplingPass)
        ensures
            pass.input_frames_left == input_frames,
            pass.output_frames_left == output_frames_left,
            pass.input_offset == 0,
            pass.partial_len == match self.resampling_mode {
                ResamplingMode::Flush => Some(input_frames),
                ResamplingMode::Resample => None,
            },
    {
        ResamplingPass {
            input_frames_left: input_frames,
            output_frames_left,
            input_offset: 0,
            partial_len: self.get_indexing_partial_len(input_frames),
        }
    }

    /// Takes in one run of the kernel, which read `frames_read` input frames and
    /// wrote `frames_written` output frames (of `channels` samples, at most
    /// `output_frames_max`), and returns the range of its output to keep (see
    /// `spec_output_samples_range`). The read frames are passed over; the warm-up
    /// counts off the delay frames (see `spec_status_after_output`). While the
    /// warm-up goes on nothing else changes; otherwise the written frames are no
    /// longer owed, and once a flush has read all its input the kernel goes on
    /// reading silence from the start. A flush past its warm-up never keeps more
    /// than the frames it stops owing.
    pub fn advance_pass(
        &mut self,
        pass: &mut ResamplingPass,
        frames_read: usize,
        frames_written: usize,
        output_frames_max: usize,
        channels: usize,
    ) -> (range: (usize, usize))
        requires
            channels > 0,
            output_frames_max * channels <= usize::MAX,
            old(self).status matches AudioResamplerStatus::Warmup(warmup) ==> warmup * channels
                <= usize::MAX,
            old(pass).input_offset + frames_read <= usize::MAX,
        ensures
            (range.0 as int, range.1 as int) == spec_output_samples_range(
                old(self).status,
                old(self).resampling_mode,
                frames_written,
                old(pass).output_frames_left,
                output_frames_max,
                channels,
            ),
            final(self).status == spec_status_after_output(
                old(self).status,
                range.0 as int,
                range.1 as int,
                channels,
            ),
            final(self).resampling_mode == old(self).resampling_mode,
            final(self).total_samples_read == old(self).total_samples_read,
            final(self).total_samples_delivered == old(self).total_samples_delivered,
            final(self).channels == old(self).channels,
            final(self).input == old(self).input,
            final(self).output == old(self).output,
            ({
                let input_frames_left = old(pass).input_frames_left - if frames_read
                    <= old(pass).input_frames_left {
                    frames_read as int
                } else {
                    old(pass).input_frames_left as int
                };
                let warming_up = final(self).status is Warmup;
                let silence = !warming_up && input_frames_left == 0 && old(self).resampling_mode
                    == ResamplingMode::Flush;
                &&& final(pass).input_frames_left == input_frames_left
                &&& final(pass).output_frames_left == if warming_up {
                    old(pass).output_frames_left as int
                } else {
                    old(pass).output_frames_left - if frames_written <= old(pass).output_frames_left {
                        frames_written as int
                    } else {
                        old(pass).output_frames_left as int
                    }
                }
                &&& final(pass).input_offset == if silence {
                    0
                } else {
                    old(pass).input_offset + frames_read
                }
                &&& final(pass).partial_len == if silence {
                    Some(0usize)
                } else {
                    old(pass).partial_len
                }
            }),
            !(old(self).status is Warmup) && old(self).resampling_mode == ResamplingMode::Flush
                ==> range.0 == 0 && range.1 <= (old(pass).output_frames_left
                - final(pass).output_frames_left) * channels,
    {
        pass.input_offset = pass.input_offset + frames_read;
        let consumed = if frames_read <= pass.input_frames_left {
            frames_read
        } else {
            pass.input_frames_left
        };
        pass.input_frames_left = pass.input_frames_left - consumed;
        let range = self.get_output_samples_range(
            frames_written,
            pass.output_frames_left,
            output_frames_max,
            channels,
        );
        if self.advance_warmup(range.0, range.1, channels) {
            return range;
        }
        let delivered = if frames_written <= pass.output_frames_left {
            frames_written
        } else {
            pass.output_frames_left
        };
        proof {
            let frames = if frames_written <= output_frames_max {
                frames_written as int
            } else {
                output_frames_max as int
            };
            let kept = if self.resampling_mode == ResamplingMode::Flush && pass.output_frames_left
                < frames {
                pass.output_frames_left as int
            } else {
                frames
            };
            if self.resampling_mode == ResamplingMode::Flush {
                assert(kept <= delivered);
                assert(kept * channels <= delivered * channels) by (nonlinear_arith)
                    requires
                        kept <= delivered,
                        channels > 0,
                ;
            }
        }
        pass.output_frames_left = pass.output_frames_left - delivered;
        if pass.input_frames_left == 0 && self.resampling_mode == ResamplingMode::Flush {
            pass.input_offset = 0;
            pass.partial_len = Some(0);
        }
        range
    }

    /// Where the input that a resampling pass did not read starts, in samples, when
    /// it is kept for the next call: only while resampling, and only when the frames
    /// read are fewer than the samples given (`sample_count`).
    pub fn leftover_start(&self, pass: &ResamplingPass, sample_count: usize, channels: usize) -> (start: Option<usize>)
        requires
            pass.input_offset * channels <= usize::MAX,
        ensures
            start == if self.resampling_mode == ResamplingMode::Resample && pass.input_offset
                < sample_count {
                Some((pass.input_offset * channels) as usize)
            } else {
                None
            },
    {
        if self.resampling_mode == ResamplingMode::Resample && pass.input_offset < sample_count {
            Some(pass.input_offset * channels)
        } else {
            None
        }
    }

    /// Frames still to be produced when flushing: the output that the samples read
    /// so far amount to (`expected_output_samples`, the read count times the
    /// resampling ratio, rounded) minus what was delivered, in frames of `channels`.
    /// Nothing is owed while resampling.
    pub fn output_frames_owed(&self, expected_output_samples: usize, channels: usize) -> (owed: usize)
        requires
            channels > 0,
            self.resampling_mode == ResamplingMode::Flush ==> expected_output_samples
                >= self.total_samples_delivered,
        ensures
            owed == match self.resampling_mode {
                ResamplingMode::Flush => ((expected_output_samples - self.total_samples_delivered)
                    / (channels as int)) as usize,
                ResamplingMode::Resample => 0,
            },
    {
        match self.resampling_mode {
            ResamplingMode::Flush => (expected_output_samples - self.total_samples_delivered)
                / channels,
            ResamplingMode::Resample => 0,
        }
    }

    /// The input of the next call in `mode`: while resampling, the samples kept back
    /// from the last call followed by the new `samples`; when flushing, the new
    /// `samples` followed by those kept back. Nothing stays kept back.
    pub fn take_input(&mut self, mode: ResamplingMode, samples: &[u32]) -> (input: Vec<u32>)
        requires
            old(self).leftover@.len() + samples@.len() <= usize::MAX,
        ensures
            input@ == match mode {
                ResamplingMode::Resample => old(self).leftover@ + samples@,
                ResamplingMode::Flush => samples@ + old(self).leftover@,
            },
            final(self).leftover@.len() == 0,
            final(self).resampling_mode == old(self).resampling_mode,
            final(self).total_samples_read == old(self).total_samples_read,
            final(self).total_samples_delivered == old(self).total_samples_delivered,
            final(self).status == old(self).status,
            final(self).channels == old(self).channels,
            final(self).input == old(self).input,
            final(self).output == old(self).output,
    {
        let mut kept: Vec<u32> = Vec::new();
        std::mem::swap(&mut kept, &mut self.leftover);
        match mode {
            ResamplingMode::Resample => joined_samples(kept.as_slice(), samples),
            ResamplingMode::Flush => joined_samples(samples, kept.as_slice()),
        }
    }

    /// Starts a call in `mode` on `sample_count` input samples: they count as read.
    pub fn begin(&mut self, mode: ResamplingMode, sample_count: usize)
        requires
            old(self).total_samples_read + sample_count <= usize::MAX,
        ensures
            final(self).resampling_mode == mode,
            final(self).total_samples_read == old(self).total_samples_read + sample_count,
            final(self).total_samples_delivered == old(self).total_samples_delivered,
            final(self).status == old(self).status,
            final(self).channels == old(self).channels,
            final(self).input == old(self).input,
            final(self).output == old(self).output,
            final(self).leftover@ == old(self).leftover@,
    {
        self.resampling_mode = mode;
        self.total_samples_read = self.total_samples_read + sample_count;
    }

    /// Ends a call on `input` whose pass read up to `pass.input_offset` frames of
    /// `channels` samples and delivered `delivered` samples: the unread input is kept
    /// back for the next call (see `leftover_start`), and the call ends (see `end`)
    /// with everything kept back no longer counting as read.
    pub fn finish_pass(&mut self, pass: &ResamplingPass, input: &[u32], delivered: usize, channels: usize)
        requires
            pass.input_offset * channels <= usize::MAX,
            old(self).resampling_mode == ResamplingMode::Resample && pass.input_offset
                < input@.len() ==> pass.input_offset * channels <= input@.len(),
            old(self).leftover@.len() + input@.len() <= old(self).total_samples_read,
            old(self).total_samples_delivered + delivered <= usize::MAX,
        ensures
            final(self).leftover@ == old(self).leftover@ + (if old(self).resampling_mode
                == ResamplingMode::Resample && pass.input_offset < input@.len() {
                input@.skip(pass.input_offset * channels)
            } else {
                Seq::<u32>::empty()
            }),
            final(self).total_samples_read == old(self).total_samples_read - final(self).leftover@.len(),
            final(self).total_samples_delivered == old(self).total_samples_delivered + delivered,
            final(self).status == if old(self).resampling_mode == ResamplingMode::Flush {
                AudioResamplerStatus::Finished
            } else {
                old(self).status
            },
            final(self).resampling_mode == old(self).resampling_mode,
            final(self).channels == old(self).channels,
            final(self).input == old(self).input,
            final(self).output == old(self).output,
    {
        let ghost kept = self.leftover@;
        if let Some(start) = self.leftover_start(pass, input.len(), channels) {
            let mut index: usize = start;
            while index < input.len()
                invariant
                    start <= index <= input@.len(),
                    self.leftover@ == kept + input@.subrange(start as int, index as int),
                    self.resampling_mode == old(self).resampling_mode,
                    self.total_samples_read == old(self).total_samples_read,
                    self.total_samples_delivered == old(self).total_samples_delivered,
                    self.status == old(self).status,
                    self.channels == old(self).channels,
                    self.input == old(self).input,
                    self.output == old(self).output,
                decreases input@.len() - index,
            {
                self.leftover.push(input[index]);
                proof {
                    assert(input@.subrange(start as int, index + 1) =~= input@.subrange(
                        start as int,
                        index as int,
                    ).push(input@[index as int]));
                }
                index = index + 1;
            }
            proof {
                assert(input@.subrange(start as int, input@.len() as int) =~= input@.skip(start as int));
            }
        } else {
            proof {
                assert(self.leftover@ =~= kept + Seq::<u32>::empty());
            }
        }
        let kept_back = self.leftover.len();
        self.end(delivered, kept_back);
    }

    /// Ends a call that delivered `delivered` samples and kept `kept_back` input
    /// samples for the next call (those no longer count as read). A flush finishes
    /// the resampler.
    pub fn end(&mut self, delivered: usize, kept_back: usize)
        requires
            kept_back <= old(self).total_samples_read,
            old(self).total_samples_delivered + delivered <= usize::MAX,
        ensures
            final(self).total_samples_read == old(self).total_samples_read - kept_back,
            final(self).total_samples_delivered == old(self).total_samples_delivered + delivered,
            final(self).status == if old(self).resampling_mode == ResamplingMode::Flush {
                AudioResamplerStatus::Finished
            } else {
                old(self).status
            },
            final(self).resampling_mode == old(self).resampling_mode,
            final(self).channels == old(self).channels,
            final(self).input == old(self).input,
            final(self).output == old(self).output,
            final(self).leftover@ == old(self).leftover@,
    {
        self.total_samples_read = self.total_samples_read - kept_back;
        self.total_samples_delivered = self.total_samples_delivered + delivered;
        if self.resampling_mode == ResamplingMode::Flush {
            self.status = AudioResamplerStatus::Finished;
        }
    }
}

/// `first` followed by `second`.
fn joined_samples(first: &[u32], second: &[u32]) -> (joined: Vec<u32>)
    requires
        first@.len() + second@.len() <= usize::MAX,
    ensures
        joined@ == first@ + second@,
{
    let mut joined: Vec<u32> = Vec::new();
    let mut index: usize = 0;
    while index < first.len()
        invariant
            index <= first@.len(),
            joined@ == first@.take(index as int),
        decreases first@.len() - index,
    {
        joined.push(first[index]);
        proof {
            assert(first@.take(index + 1) =~= first@.take(index as int).push(first@[index as int]));
        }
        index = index + 1;
    }
    proof {
        assert(first@.take(first@.len() as int) =~= first@);
    }
    let mut index: usize = 0;
    while index < second.len()
        invariant
            index <= second@.len(),
            joined@ == first@ + second@.take(index as int),
        decreases second@.len() - index,
    {
        joined.push(second[index]);
        proof {
            assert(second@.take(index + 1) =~= second@.take(index as int).push(second@[index as int]));
        }
        index = index + 1;
    }
    proof {
        assert(second@.take(second@.len() as int) =~= second@);
    }
    joined
}

/// The resampler stage works only when the track's sample rate differs from the
/// output's.
pub open spec fn resampler_enabled(track_sample_rate: i64, output_sample_rate: u32) -> bool {
    track_sample_rate != output_sample_rate
}

/// The resampler stage converts in both directions: it works for a track whose
/// sample rate is below the output's (upsampling) and for one whose rate is above
/// it (downsampling), and only a track already at the output's rate skips it.
pub proof fn lemma_resampler_enabled_exactly_for_different_rates(track_sample_rate: i64, output_sample_rate: u32)
    ensures
        track_sample_rate < output_sample_rate ==> resampler_enabled(track_sample_rate, output_sample_rate),
        track_sample_rate > output_sample_rate ==> resampler_enabled(track_sample_rate, output_sample_rate),
        track_sample_rate == output_sample_rate ==> !resampler_enabled(
            track_sample_rate,
            output_sample_rate,
        ),
{
}

/// Whether the resampler is enabled does not depend on which of the two rates is
/// the track's: swapping a track rate and an output rate gives the same answer.
pub proof fn lemma_resampler_enabled_symmetric(first: u32, second: u32)
    ensures
        resampler_enabled(first as i64, second) == resampler_enabled(second as i64, first),
{
    lemma_resampler_enabled_exactly_for_different_rates(first as i64, second);
    lemma_resampler_enabled_exactly_for_different_rates(second as i64, first);
}

/// See `resampler_enabled`.
pub fn is_resampler_enabled(configuration: &AudioTrackPipelineConfiguration) -> (enabled: bool)
    ensures
        enabled == resampler_enabled(configuration.track.sample_rate, configuration.output.sample_rate),
{
    let input_sample_rate = configuration.track.sample_rate;
    let output_sample_rate = configuration.output.sample_rate as i64;
    input_sample_rate != output_sample_rate
}

/// Whether the resampler must be rebuilt because the output changed: a different
/// output sample rate, or a different number of channels to resample (the track's
/// channel count taken as a 16-bit count).
pub fn needs_rebuild(configuration: &AudioTrackPipelineConfiguration, resampler: &AudioResamplerState) -> (rebuild: bool)
    ensures
        rebuild == (configuration.output.sample_rate != resampler.output.sample_rate
            || spec_resampling_channels(configuration.track.channels as u16, configuration.output.channels)
            != resampler.channels),
{
    let track_channels = configuration.track.channels as u16;
    let channels = if track_channels <= configuration.output.channels {
        track_channels
    } else {
        configuration.output.channels
    };
    configuration.output.sample_rate != resampler.output.sample_rate || channels != resampler.channels
}

} // verus!
