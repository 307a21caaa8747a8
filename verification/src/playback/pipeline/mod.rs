//! The audio pipeline thread: it decodes the current track, converts it to the
//! output format and keeps the engine's sample queue filled.
//!
//! This module holds the pipeline's decisions. The work between them (opening and
//! decoding files, resampling, waiting on the command channel, sleeping) is done by
//! the thread that drives the pipeline, which reports the results back.

pub mod builder;
pub mod command;
pub mod sink;
pub mod stage;
pub mod thread;
pub mod track;

use std::sync::Arc;
use std::sync::atomic::AtomicU64;
use vstd::prelude::*;

use crate::playback::{GenerationCounter, spec_caught_up};
use crate::playback::pipeline::sink::{
    AudioSink, AudioSinkError, AudioSinkView, queue_drained, sink_wrote, spec_queue_drained,
};
use crate::playback::pipeline::thread::{AudioPipelineThreadCommand, AudioPipelineThreadEvent};
use crate::playback::pipeline::track::{AudioTrackPipelineState, AudioTrackPipelineStatus};
use crate::ring::pushed_samples;
use crate::track::Track;

verus! {

/// Sample rate and channel count of a stream of interleaved samples.
#[derive(Clone, Copy, Debug, PartialEq, Eq, Structural)]
pub struct AudioFormat {
    pub sample_rate: u32,
    pub channels: u16,
}

/// Whether the pipeline is producing samples.
#[derive(Clone, Copy, Debug, PartialEq, Eq, Structural)]
pub enum AudioPipelineStatus {
    Idle,
    Active,
    Paused,
}

/// Commands that the pipeline forwards to its track pipeline.
#[derive(Clone, Copy, Debug, PartialEq, Eq, Structural)]
pub enum AudioPipelineCommand {
    Seek(u64),
    Stop,
}

/// What a track pipeline reports after handling a command.
#[derive(Clone, Copy, Debug, PartialEq, Eq, Structural)]
pub enum AudioPipelineCommandOutcome {
    /// The track now continues from this position, in track frames.
    SeekedTo(u64),
}

/// Settings of the pipeline.
#[derive(Clone, Copy, Debug, PartialEq, Eq, Structural)]
pub struct AudioPipelineConfiguration {
    pub volume_percentage: u8,
    pub output: AudioFormat,
}

/// Whether the command channel should be waited on: only while the pipeline has
/// nothing to produce (idle or paused); an active pipeline merely polls it.
pub open spec fn spec_blocks_for_commands(status: AudioPipelineStatus) -> bool {
    status == AudioPipelineStatus::Idle || status == AudioPipelineStatus::Paused
}

/// See `spec_blocks_for_commands`.
pub fn blocks_for_commands(status: &AudioPipelineStatus) -> (blocks: bool)
    ensures
        blocks == spec_blocks_for_commands(*status),
{
    match status {
        AudioPipelineStatus::Idle | AudioPipelineStatus::Paused => true,
        AudioPipelineStatus::Active => false,
    }
}

/// The event that entering `status` reports.
pub open spec fn status_event(status: AudioPipelineStatus) -> AudioPipelineThreadEvent {
    match status {
        AudioPipelineStatus::Active => AudioPipelineThreadEvent::StartedAudioPipeline,
        _ => AudioPipelineThreadEvent::StoppedAudioPipeline,
    }
}

/// The events that moving from status `from` to status `to` reports: one event
/// when the status changes, none otherwise.
pub open spec fn status_change_events(from: AudioPipelineStatus, to: AudioPipelineStatus) -> Seq<
    AudioPipelineThreadEvent,
> {
    if from == to {
        seq![]
    } else {
        seq![status_event(to)]
    }
}

/// What the driving thread has to do after a command.
pub enum AudioPipelineCommandDirective {
    /// Nothing more.
    Done,
    /// The command is not supported yet; nothing changed.
    Unsupported,
    /// Build a track pipeline for this track, then report it with `start_track`.
    PlayTrack(Track),
    /// Hand this command to the track pipeline and report its outcome.
    ForwardToTrack(AudioPipelineCommand),
    /// Leave the thread.
    Exit,
}

/// What the driving thread has to do next after the sink was written.
#[derive(Clone, Copy, Debug, PartialEq, Eq, Structural)]
pub enum AudioPipelineProcessStep {
    /// Go round again.
    Continue,
    /// The engine queue is full: sleep for half the time the engine takes to play
    /// a full queue.
    SleepUntilQueueDrains,
    /// Sleep this many milliseconds.
    SleepMilliseconds(u64),
    /// Produce the next samples of the track and hand them to `deliver_samples`.
    ProduceSamples,
}

/// How `resume` went on.
pub enum AudioPipelineResume {
    /// There is no track; nothing changed.
    NoTrack,
    /// The pipeline is active.
    Activated,
    /// The finished track has to be played again from its start.
    RestartTrack(Track),
}

/// The pipeline's view.
#[verifier::ext_equal]
pub struct AudioPipelineView {
    pub status: AudioPipelineStatus,
    pub track: Option<AudioTrackPipelineState>,
    pub sink: AudioSinkView,
    pub configuration: AudioPipelineConfiguration,
    pub pending_events: Seq<AudioPipelineThreadEvent>,
}

/// The pipeline's decision state: the status, the current track pipeline's
/// bookkeeping, the sink in front of the engine queue and the events not yet sent
/// to the controller.
pub struct AudioPipeline {
    track_pipeline: Option<AudioTrackPipelineState>,
    audio_sink: AudioSink,
    status: AudioPipelineStatus,
    configuration: AudioPipelineConfiguration,
    samples_played_timestamp_offset: Arc<AtomicU64>,
    generation_counter: Arc<GenerationCounter>,
    pending_events: Vec<AudioPipelineThreadEvent>,
}

impl View for AudioPipeline {
    type V = AudioPipelineView;

    closed spec fn view(&self) -> AudioPipelineView {
        AudioPipelineView {
            status: self.status,
            track: self.track_pipeline,
            sink: self.audio_sink@,
            configuration: self.configuration,
            pending_events: self.pending_events@,
        }
    }
}

} // verus!

use crate::playback::pipeline::command::AudioPipelineCommandReceiverError;
use crate::playback::pipeline::stage::channel_converter::AudioChannelConverterError;
use crate::playback::pipeline::stage::decoder::AudioDecoderError;
use crate::playback::pipeline::stage::resampler::AudioResamplerError;
use vstd::string::StringExecFns;

verus! {

/// Failures of the pipeline thread.
#[derive(Clone, Debug, PartialEq, Eq)]
pub enum AudioPipelineError {
    AudioTrackPipelineFinished,
    AudioPipelineCommandReceiver(AudioPipelineCommandReceiverError),
    Decoder(AudioDecoderError),
    ChannelConverter(AudioChannelConverterError),
    Resampler(AudioResamplerError),
    Sink(AudioSinkError),
}

impl AudioPipelineError {
    /// The error's message, with the message of the error it wraps.
    pub open spec fn message_text(self) -> Seq<char> {
        match self {
            AudioPipelineError::AudioTrackPipelineFinished => "there are no more samples to decode for current track."@,
            AudioPipelineError::AudioPipelineCommandReceiver(error) => "audio pipeline command receiver error: "@
                + error.message_text(),
            AudioPipelineError::Decoder(error) => "decoder error: "@ + error.message_text(),
            AudioPipelineError::ChannelConverter(error) => "channel converter error: "@
                + error.message_text(),
            AudioPipelineError::Resampler(error) => "resampler error: "@ + error.message_text(),
            AudioPipelineError::Sink(error) => "sink error: "@ + error.message_text(),
        }
    }

    /// The messages of the error and of the chain of errors that caused it.
    pub open spec fn chain_texts(self) -> Seq<Seq<char>> {
        match self {
            AudioPipelineError::AudioTrackPipelineFinished => seq![self.message_text()],
            AudioPipelineError::AudioPipelineCommandReceiver(error) => seq![self.message_text()]
                + error.chain_texts(),
            AudioPipelineError::Decoder(error) => seq![self.message_text(), error.message_text()],
            AudioPipelineError::ChannelConverter(error) => seq![self.message_text(), error.message_text()],
            AudioPipelineError::Resampler(error) => seq![self.message_text(), error.message_text()],
            AudioPipelineError::Sink(error) => seq![self.message_text(), error.message_text()],
        }
    }

    /// See `chain_texts`.
    pub fn chain_messages(&self) -> (messages: Vec<String>)
        ensures
            crate::log::texts(messages@) =~= self.chain_texts(),
    {
        let causes = match self {
            AudioPipelineError::AudioTrackPipelineFinished => Vec::new(),
            AudioPipelineError::AudioPipelineCommandReceiver(error) => error.chain_messages(),
            AudioPipelineError::Decoder(error) => vec![error.message()],
            AudioPipelineError::ChannelConverter(error) => vec![error.message()],
            AudioPipelineError::Resampler(error) => vec![error.message()],
            AudioPipelineError::Sink(error) => vec![error.message()],
        };
        crate::log::chain_with(self.message(), causes)
    }

    /// See `message_text`.
    pub fn message(&self) -> (text: String)
        ensures
            text@ == self.message_text(),
    {
        match self {
            AudioPipelineError::AudioTrackPipelineFinished => String::from_str(
                "there are no more samples to decode for current track.",
            ),
            AudioPipelineError::AudioPipelineCommandReceiver(error) => {
                let inner = error.message();
                String::from_str("audio pipeline command receiver error: ").concat(inner.as_str())
            },
            AudioPipelineError::Decoder(error) => {
                let inner = error.message();
                String::from_str("decoder error: ").concat(inner.as_str())
            },
            AudioPipelineError::ChannelConverter(error) => {
                let inner = error.message();
                String::from_str("channel converter error: ").concat(inner.as_str())
            },
            AudioPipelineError::Resampler(error) => {
                let inner = error.message();
                String::from_str("resampler error: ").concat(inner.as_str())
            },
            AudioPipelineError::Sink(error) => {
                let inner = error.message();
                String::from_str("sink error: ").concat(inner.as_str())
            },
        }
    }
}

/// What the driving thread does about a failed pipeline step.
#[derive(Clone, Copy, Debug, PartialEq, Eq, Structural)]
pub enum AudioPipelineErrorReaction {
    /// The engine queue is full: sleep until it drains.
    SleepUntilQueueDrains,
    /// A recoverable decoding failure: log a warning and go on.
    Warn,
    /// The pipeline went idle: log the error.
    Stopped,
}

} // verus!

verus! {

/// `view` after the status became `status`, with the event that reports the change.
pub open spec fn with_status(view: AudioPipelineView, status: AudioPipelineStatus) -> AudioPipelineView {
    AudioPipelineView {
        status,
        pending_events: view.pending_events + status_change_events(view.status, status),
        ..view
    }
}

/// `view` after the queued samples were dropped for a new generation.
pub open spec fn with_sink_cleared(view: AudioPipelineView) -> AudioPipelineView {
    AudioPipelineView {
        sink: AudioSinkView { buffered: Seq::empty(), delivered: view.sink.delivered },
        ..view
    }
}

/// `view` after `track` became the current track: a fresh track pipeline, the track
/// change reported, the pipeline active and the queued samples dropped.
pub open spec fn with_track_started(view: AudioPipelineView, track: Track) -> AudioPipelineView {
    let announced = AudioPipelineView {
        track: Some(
            AudioTrackPipelineState {
                status: AudioTrackPipelineStatus::Ready,
                track,
                output: view.configuration.output,
                frames_delivered: 0,
            },
        ),
        pending_events: view.pending_events.push(
            AudioPipelineThreadEvent::ActiveTrackChanged { track_id: track.id },
        ),
        ..view
    };
    with_sink_cleared(with_status(announced, AudioPipelineStatus::Active))
}

/// How `resume` may go from `old` to `new` with `outcome`: without a track nothing
/// happens; a track that is not finished makes the pipeline active; a finished
/// track is restarted only when the pipeline is idle and its sink is empty (and the
/// engine has played everything), otherwise the pipeline becomes active.
pub open spec fn resumed(old: AudioPipelineView, new: AudioPipelineView, outcome: AudioPipelineResume) -> bool {
    match old.track {
        None => outcome is NoTrack && new =~= old,
        Some(track) => if track.status != AudioTrackPipelineStatus::Finished {
            outcome is Activated && new =~= with_status(old, AudioPipelineStatus::Active)
        } else {
            &&& match outcome {
                AudioPipelineResume::RestartTrack(restarted) => {
                    &&& old.status == AudioPipelineStatus::Idle
                    &&& old.sink.buffered.len() == 0
                    &&& restarted == track.track
                    &&& new =~= old
                },
                AudioPipelineResume::Activated => new =~= with_status(old, AudioPipelineStatus::Active),
                AudioPipelineResume::NoTrack => false,
            }
            &&& (old.status != AudioPipelineStatus::Idle || old.sink.buffered.len() > 0) ==> outcome is Activated
        },
    }
}

impl AudioPipeline {
    /// The cells the pipeline shares with the controller and the output callback:
    /// the offset of the first queued sample in the track, and the generations.
    pub closed spec fn shared_cells(&self) -> (Arc<AtomicU64>, Arc<GenerationCounter>) {
        (self.samples_played_timestamp_offset, self.generation_counter)
    }

    /// The engine queue end the pipeline's sink writes into.
    pub closed spec fn sink_producer(&self) -> rtrb::Producer<u32> {
        self.audio_sink.producer()
    }

    /// An idle pipeline without a track, writing through `audio_sink`.
    pub fn new(
        configuration: AudioPipelineConfiguration,
        audio_sink: AudioSink,
        samples_played_timestamp_offset: Arc<AtomicU64>,
        generation_counter: Arc<GenerationCounter>,
    ) -> (pipeline: Self)
        ensures
            pipeline.shared_cells() == (samples_played_timestamp_offset, generation_counter),
            pipeline.sink_producer() == audio_sink.producer(),
            pipeline@.status == AudioPipelineStatus::Idle,
            pipeline@.track is None,
            pipeline@.sink == audio_sink@,
            pipeline@.configuration == configuration,
            pipeline@.pending_events.len() == 0,
    {
        AudioPipeline {
            track_pipeline: None,
            audio_sink,
            status: AudioPipelineStatus::Idle,
            configuration,
            samples_played_timestamp_offset,
            generation_counter,
            pending_events: Vec::new(),
        }
    }

    /// The current status.
    pub fn status(&self) -> (status: AudioPipelineStatus)
        ensures
            status == self@.status,
    {
        self.status
    }

    /// The current configuration.
    pub fn configuration(&self) -> (configuration: AudioPipelineConfiguration)
        ensures
            configuration == self@.configuration,
    {
        self.configuration
    }

    /// The status of the current track pipeline, if there is one.
    pub fn track_status(&self) -> (status: Option<AudioTrackPipelineStatus>)
        ensures
            status == match self@.track {
                Some(track) => Some(track.status),
                None => None,
            },
    {
        match &self.track_pipeline {
            Some(track) => Some(track.status),
            None => None,
        }
    }

    /// The output format and frames delivered of the current track pipeline, if any.
    pub fn track_progress(&self) -> (progress: Option<(AudioFormat, u64)>)
        ensures
            progress == match self@.track {
                Some(track) => Some((track.output, track.frames_delivered)),
                None => None,
            },
    {
        match &self.track_pipeline {
            Some(track) => Some((track.output, track.frames_delivered)),
            None => None,
        }
    }

    /// Sets the status. A change is reported to the controller: `StartedAudioPipeline`
    /// on becoming active, `StoppedAudioPipeline` on becoming idle or paused.
    pub fn set_status(&mut self, status: AudioPipelineStatus)
        ensures
            final(self)@ == with_status(old(self)@, status),
            final(self).sink_producer() == old(self).sink_producer(),
    {
        if self.status == status {
            return;
        }
        self.status = status;
        let event = match self.status {
            AudioPipelineStatus::Idle | AudioPipelineStatus::Paused => {
                AudioPipelineThreadEvent::StoppedAudioPipeline
            },
            AudioPipelineStatus::Active => AudioPipelineThreadEvent::StartedAudioPipeline,
        };
        self.pending_events.push(event);
    }

    /// Starts a new generation whose first queued sample lies `timestamp_offset`
    /// output samples into the track: the sink is emptied, the offset is published
    /// and the pipeline generation moves on, so the engine drops its queue.
    fn increase_generation_counter(&mut self, timestamp_offset: u64)
        ensures
            final(self)@ == with_sink_cleared(old(self)@),
    {
        self.audio_sink.clear();
        self.publish_timestamp_offset(timestamp_offset);
        self.generation_counter.increase_audio_pipeline_generation();
    }

    /// Publishes the offset of the next generation's first sample.
    fn publish_timestamp_offset(&self, timestamp_offset: u64) {
        self.samples_played_timestamp_offset.store(
            timestamp_offset,
            std::sync::atomic::Ordering::Relaxed,
        );
    }

    /// Makes `track` the current track, once the driving thread has built its track
    /// pipeline: the track change is reported, the pipeline becomes active and a new
    /// generation starts at the beginning of the track.
    pub fn start_track(&mut self, track: Track)
        ensures
            final(self)@ == with_track_started(old(self)@, track),
    {
        let track_id = track.id;
        self.track_pipeline = Some(AudioTrackPipelineState::new(track, self.configuration.output));
        self.pending_events.push(AudioPipelineThreadEvent::ActiveTrackChanged { track_id });
        self.set_status(AudioPipelineStatus::Active);
        self.increase_generation_counter(0);
    }

    /// Resumes production (see `resumed`).
    pub fn resume(&mut self) -> (outcome: AudioPipelineResume)
        ensures
            resumed(old(self)@, final(self)@, outcome),
            final(self).sink_producer() == old(self).sink_producer(),
    {
        let track_status = match &self.track_pipeline {
            None => {
                return AudioPipelineResume::NoTrack;
            },
            Some(track) => track.status,
        };
        match track_status {
            AudioTrackPipelineStatus::Ready | AudioTrackPipelineStatus::Ongoing => {
                self.set_status(AudioPipelineStatus::Active);
                AudioPipelineResume::Activated
            },
            AudioTrackPipelineStatus::Finished => {
                if self.audio_sink.is_empty() && self.audio_sink.is_engine_buffer_empty()
                    && self.status == AudioPipelineStatus::Idle {
                    match &self.track_pipeline {
                        Some(track) => AudioPipelineResume::RestartTrack(track.track.duplicate()),
                        None => AudioPipelineResume::NoTrack,
                    }
                } else {
                    self.set_status(AudioPipelineStatus::Active);
                    AudioPipelineResume::Activated
                }
            },
        }
    }

    /// Handles a command from the controller (see `handled_command`).
    pub fn handle_command(&mut self, command: AudioPipelineThreadCommand) -> (directive:
        AudioPipelineCommandDirective)
        ensures
            handled_command(old(self)@, command, final(self)@, directive),
            command matches AudioPipelineThreadCommand::ChangeOutput { audio_engine_producer, .. }
                ==> final(self).sink_producer() == audio_engine_producer,
            !(command is ChangeOutput) ==> final(self).sink_producer() == old(self).sink_producer(),
    {
        match command {
            AudioPipelineThreadCommand::Play(track) => AudioPipelineCommandDirective::PlayTrack(track),
            AudioPipelineThreadCommand::Pause => {
                self.set_status(AudioPipelineStatus::Paused);
                AudioPipelineCommandDirective::Done
            },
            AudioPipelineThreadCommand::Resume => match self.resume() {
                AudioPipelineResume::RestartTrack(track) => AudioPipelineCommandDirective::PlayTrack(
                    track,
                ),
                _ => AudioPipelineCommandDirective::Done,
            },
            AudioPipelineThreadCommand::Stop => {
                self.set_status(AudioPipelineStatus::Idle);
                self.forward_to_track(AudioPipelineCommand::Stop)
            },
            AudioPipelineThreadCommand::PlayNext | AudioPipelineThreadCommand::PlayPrevious
            | AudioPipelineThreadCommand::ChangeNextTrack(_) => {
                AudioPipelineCommandDirective::Unsupported
            },
            AudioPipelineThreadCommand::Seek(seek_timestamp) => {
                self.forward_to_track(AudioPipelineCommand::Seek(seek_timestamp))
            },
            AudioPipelineThreadCommand::ChangeOutput { output, audio_engine_producer } => {
                self.audio_sink = AudioSink::new(
                    audio_engine_producer,
                    crate::sync::arc_clone(&self.generation_counter),
                );
                self.configuration.output = output;
                AudioPipelineCommandDirective::Done
            },
            AudioPipelineThreadCommand::Exit => AudioPipelineCommandDirective::Exit,
        }
    }

    /// The command goes to the track pipeline when there is one.
    fn forward_to_track(&self, command: AudioPipelineCommand) -> (directive:
        AudioPipelineCommandDirective)
        ensures
            directive == forwarded(self@, command),
    {
        if self.track_pipeline.is_some() {
            AudioPipelineCommandDirective::ForwardToTrack(command)
        } else {
            AudioPipelineCommandDirective::Done
        }
    }

    /// Takes in what the track pipeline reported after a forwarded command: after a
    /// seek to `new_track_timestamp` (in track frames), whose first output sample
    /// lies `timestamp_offset` output samples into the track, a new generation starts.
    pub fn handle_command_outcome(
        &mut self,
        outcome: AudioPipelineCommandOutcome,
        timestamp_offset: u64,
    )
        ensures
            final(self)@ == with_outcome(old(self)@, outcome),
    {
        match outcome {
            AudioPipelineCommandOutcome::SeekedTo(new_track_timestamp) => {
                if let Some(track) = &mut self.track_pipeline {
                    track.seeked_to(new_track_timestamp);
                }
                self.increase_generation_counter(timestamp_offset);
            },
        }
    }

    /// Writes the sink to the engine queue and decides what comes next (see
    /// `next_step_taken_with`), after reading the generations (see
    /// `next_step_loaded`).
    pub fn next_step(&mut self) -> (step: AudioPipelineProcessStep)
        ensures
            exists|engine_generation: u64, pipeline_generation: u64, free_slots: usize|
                next_step_taken_with(
                    old(self)@,
                    final(self)@,
                    step,
                    engine_generation,
                    pipeline_generation,
                    free_slots,
                ),
    {
        let (engine_generation, pipeline_generation) = self.audio_sink.load_generations();
        self.next_step_loaded(engine_generation, pipeline_generation)
    }

    /// Writes the sink to the engine queue given the generations read (see
    /// `AudioSink::write_loaded`), reads the free slots of the engine queue after
    /// the write, and decides what comes next with them (see `step_after_write`).
    pub fn next_step_loaded(&mut self, engine_generation: u64, pipeline_generation: u64) -> (step:
        AudioPipelineProcessStep)
        ensures
            exists|free_slots: usize|
                next_step_taken_with(
                    old(self)@,
                    final(self)@,
                    step,
                    engine_generation,
                    pipeline_generation,
                    free_slots,
                ),
    {
        let written = self.audio_sink.write_loaded(engine_generation, pipeline_generation);
        let ghost after_write = self@;
        assert(sink_wrote(old(self)@.sink, after_write.sink, written, engine_generation, pipeline_generation));
        assert(after_write == (AudioPipelineView { sink: after_write.sink, ..old(self)@ }));
        let free_slots = self.audio_sink.free_queue_slots();
        let step = self.step_after_write(written, free_slots);
        proof {
            let old_view = old(self)@;
            if !spec_caught_up(engine_generation, pipeline_generation) {
                let sink = old_view.sink;
                assert(after_write =~= old_view);
                assert(sink.delivered.take(sink.delivered.len() as int) =~= sink.delivered);
                assert(sink.delivered.skip(sink.delivered.len() as int) + sink.buffered =~= sink.buffered);
            }
            assert(next_step_taken_with(old_view, self@, step, engine_generation, pipeline_generation, free_slots));
        }
        step
    }

    /// Decides what comes next after the sink was written with outcome `written`,
    /// given the free slots of the engine queue read after the write (see
    /// `stepped_after_write`).
    pub fn step_after_write(&mut self, written: Result<(), AudioSinkError>, free_slots: usize) -> (step:
        AudioPipelineProcessStep)
        ensures
            stepped_after_write(old(self)@, final(self)@, written, free_slots, step),
    {
        match written {
            Err(AudioSinkError::FullRingBuffer) => {
                return AudioPipelineProcessStep::SleepUntilQueueDrains;
            },
            Err(AudioSinkError::AwaitingBufferClear) => {
                return AudioPipelineProcessStep::SleepMilliseconds(1);
            },
            Ok(()) => {},
        }
        let track_status = match &self.track_pipeline {
            None => {
                self.set_status(AudioPipelineStatus::Idle);
                return AudioPipelineProcessStep::Continue;
            },
            Some(track) => track.status,
        };
        if track_status == AudioTrackPipelineStatus::Finished {
            if self.audio_sink.is_empty() && queue_drained(free_slots) {
                self.pending_events.push(AudioPipelineThreadEvent::TrackFinished);
                self.set_status(AudioPipelineStatus::Idle);
                return AudioPipelineProcessStep::Continue;
            }
            return AudioPipelineProcessStep::SleepMilliseconds(10);
        }
        AudioPipelineProcessStep::ProduceSamples
    }

    /// Takes in the samples the track pipeline produced (the last ones of the track
    /// when `end_of_track`): the track pipeline records them and the sink buffers
    /// them. A finished track produces nothing more.
    pub fn deliver_samples(&mut self, samples: &[u32], end_of_track: bool) -> (result: Result<
        (),
        AudioPipelineError,
    >)
        requires
            old(self)@.track matches Some(track) ==> track.output.channels > 0
                && track.frames_delivered + (samples@.len() as int) / (track.output.channels as int)
                <= u64::MAX,
        ensures
            old(self)@.track is None ==> result == Err::<(), _>(
                AudioPipelineError::AudioTrackPipelineFinished,
            ) && final(self)@ == old(self)@,
            old(self)@.track matches Some(track) ==> {
                if track.status == AudioTrackPipelineStatus::Finished {
                    result == Err::<(), _>(AudioPipelineError::AudioTrackPipelineFinished)
                        && final(self)@ == old(self)@
                } else {
                    &&& result is Ok
                    &&& final(self)@ == AudioPipelineView {
                        track: Some(
                            AudioTrackPipelineState {
                                frames_delivered: (track.frames_delivered + (samples@.len() as int) / (
                                track.output.channels as int)) as u64,
                                status: if end_of_track {
                                    AudioTrackPipelineStatus::Finished
                                } else {
                                    track.status
                                },
                                ..track
                            },
                        ),
                        sink: AudioSinkView {
                            buffered: old(self)@.sink.buffered + samples@,
                            ..old(self)@.sink
                        },
                        ..old(self)@
                    }
                }
            },
    {
        let recorded = match &mut self.track_pipeline {
            None => Err(AudioPipelineError::AudioTrackPipelineFinished),
            Some(track) => track.record_produced(samples.len(), end_of_track),
        };
        if recorded.is_ok() {
            self.audio_sink.buffer(samples);
        }
        recorded
    }

    /// Takes in a failed step: a full engine queue waits for it to drain, a
    /// recoverable decoding failure is only reported, and any other failure makes
    /// the pipeline idle at once, without reporting the status change.
    pub fn handle_process_error(&mut self, error: &AudioPipelineError) -> (reaction:
        AudioPipelineErrorReaction)
        ensures
            match *error {
                AudioPipelineError::Sink(AudioSinkError::FullRingBuffer) => {
                    &&& reaction == AudioPipelineErrorReaction::SleepUntilQueueDrains
                    &&& final(self)@ == old(self)@
                },
                AudioPipelineError::Decoder(AudioDecoderError::RecoverableDecoderError(_)) => {
                    &&& reaction == AudioPipelineErrorReaction::Warn
                    &&& final(self)@ == old(self)@
                },
                _ => {
                    &&& reaction == AudioPipelineErrorReaction::Stopped
                    &&& final(self)@ == (AudioPipelineView { status: AudioPipelineStatus::Idle, ..old(self)@ })
                },
            },
    {
        match error {
            AudioPipelineError::Sink(AudioSinkError::FullRingBuffer) => {
                AudioPipelineErrorReaction::SleepUntilQueueDrains
            },
            AudioPipelineError::Decoder(AudioDecoderError::RecoverableDecoderError(_)) => {
                AudioPipelineErrorReaction::Warn
            },
            _ => {
                self.status = AudioPipelineStatus::Idle;
                AudioPipelineErrorReaction::Stopped
            },
        }
    }

    /// Hands over the events for the controller, oldest first, and forgets them.
    pub fn take_pending_events(&mut self) -> (events: Vec<AudioPipelineThreadEvent>)
        ensures
            events@ == old(self)@.pending_events,
            final(self)@ == (AudioPipelineView { pending_events: Seq::empty(), ..old(self)@ }),
    {
        let mut events = Vec::new();
        std::mem::swap(&mut events, &mut self.pending_events);
        events
    }
}

/// `view` after the track pipeline reported `outcome`: after a seek to `timestamp`
/// (in track frames) the track continues from there, and the queued samples are
/// dropped for a new generation.
pub open spec fn with_outcome(view: AudioPipelineView, outcome: AudioPipelineCommandOutcome) -> AudioPipelineView {
    with_sink_cleared(
        match (view.track, outcome) {
            (Some(track), AudioPipelineCommandOutcome::SeekedTo(timestamp)) => AudioPipelineView {
                track: Some(AudioTrackPipelineState { frames_delivered: timestamp, ..track }),
                ..view
            },
            _ => view,
        },
    )
}

/// Stopping rewinds the track: the pipeline becomes idle and hands the stop to the
/// track pipeline, and once that reports having gone back to the first frame (as
/// the decoder does for a stop, see `seek_outcome`), the same track continues from
/// its start with nothing queued, and the pipeline stays idle.
pub proof fn lemma_stop_rewinds(
    view: AudioPipelineView,
    stopped: AudioPipelineView,
    directive: AudioPipelineCommandDirective,
)
    requires
        view.track is Some,
        handled_command(view, AudioPipelineThreadCommand::Stop, stopped, directive),
    ensures
        directive == AudioPipelineCommandDirective::ForwardToTrack(AudioPipelineCommand::Stop),
        stopped.status == AudioPipelineStatus::Idle,
        ({
            let rewound = with_outcome(stopped, AudioPipelineCommandOutcome::SeekedTo(0));
            &&& rewound.track matches Some(track) && track.frames_delivered == 0 && track.track
                == view.track->0.track
            &&& rewound.sink.buffered.len() == 0
            &&& rewound.status == AudioPipelineStatus::Idle
        }),
{
}

/// What forwarding `command` to the track pipeline asks for: the command goes
/// there when there is a track, and nothing happens otherwise.
pub open spec fn forwarded(view: AudioPipelineView, command: AudioPipelineCommand) -> AudioPipelineCommandDirective {
    if view.track is Some {
        AudioPipelineCommandDirective::ForwardToTrack(command)
    } else {
        AudioPipelineCommandDirective::Done
    }
}

/// How the pipeline handles `command`, going from `old` to `new` and asking the
/// driving thread for `directive`:
/// - `Play(track)`: the track pipeline is to be built (`PlayTrack`); nothing changes yet.
/// - `Pause`: the pipeline is paused.
/// - `Resume`: as `resume`; a finished track to restart comes back as `PlayTrack`.
/// - `Stop`: the pipeline becomes idle and the track pipeline rewinds.
/// - `Seek(t)`: the track pipeline seeks to `t`.
/// - `PlayNext`, `PlayPrevious`, `ChangeNextTrack`: unsupported; nothing changes.
/// - `ChangeOutput`: a new, empty sink writes to the new queue in the new format.
/// - `Exit`: the thread is to end; nothing changes.
pub open spec fn handled_command(
    old: AudioPipelineView,
    command: AudioPipelineThreadCommand,
    new: AudioPipelineView,
    directive: AudioPipelineCommandDirective,
) -> bool {
    match command {
        AudioPipelineThreadCommand::Play(track) => directive == AudioPipelineCommandDirective::PlayTrack(track) && new =~= old,
        AudioPipelineThreadCommand::Pause => directive is Done && new =~= with_status(old, AudioPipelineStatus::Paused),
        AudioPipelineThreadCommand::Resume => match directive {
            AudioPipelineCommandDirective::PlayTrack(track) => resumed(old, new, AudioPipelineResume::RestartTrack(track)),
            AudioPipelineCommandDirective::Done => resumed(old, new, AudioPipelineResume::Activated) || resumed(old, new, AudioPipelineResume::NoTrack),
            _ => false,
        },
        AudioPipelineThreadCommand::Stop => directive == forwarded(old, AudioPipelineCommand::Stop)
            && new =~= with_status(old, AudioPipelineStatus::Idle),
        AudioPipelineThreadCommand::Seek(timestamp) => directive == forwarded(old, AudioPipelineCommand::Seek(timestamp))
            && new =~= old,
        AudioPipelineThreadCommand::PlayNext | AudioPipelineThreadCommand::PlayPrevious
        | AudioPipelineThreadCommand::ChangeNextTrack(_) => directive is Unsupported && new =~= old,
        AudioPipelineThreadCommand::ChangeOutput { output, audio_engine_producer } => {
            &&& directive is Done
            &&& new =~= AudioPipelineView {
                sink: AudioSinkView { buffered: Seq::empty(), delivered: pushed_samples(audio_engine_producer) },
                configuration: AudioPipelineConfiguration { output, ..old.configuration },
                ..old
            }
        },
        AudioPipelineThreadCommand::Exit => directive is Exit && new =~= old,
    }
}

/// One step of the pipeline after its sink was written, from `old` to `new`:
/// - a full engine queue: sleep until it drains;
/// - the engine still on an older generation: sleep a millisecond;
/// - no track: the pipeline becomes idle;
/// - a finished track whose samples have all been written and played: the end of
///   the track is reported and the pipeline becomes idle; while they have not,
///   sleep ten milliseconds;
/// - otherwise: produce the next samples.
/// Whatever happens, the sink delivered its samples in order (see `AudioSink::write`).
pub open spec fn next_step_taken(old: AudioPipelineView, new: AudioPipelineView, step: AudioPipelineProcessStep) -> bool {
    let written = AudioPipelineView { sink: new.sink, ..old };
    &&& sink::written(old.sink, new.sink)
    &&& match step {
        AudioPipelineProcessStep::SleepUntilQueueDrains => new =~= written && new.sink.buffered.len() > 0,
        AudioPipelineProcessStep::SleepMilliseconds(milliseconds) => {
            ||| milliseconds == 1 && new =~= written && new.sink =~= old.sink
            ||| milliseconds == 10 && new =~= written && new.sink.buffered.len() == 0 && (old.track matches Some(track)
                && track.status == AudioTrackPipelineStatus::Finished)
        },
        AudioPipelineProcessStep::Continue => new.sink.buffered.len() == 0 && match old.track {
            None => new =~= with_status(written, AudioPipelineStatus::Idle),
            Some(track) => {
                &&& track.status == AudioTrackPipelineStatus::Finished
                &&& new =~= with_status(
                    AudioPipelineView {
                        pending_events: old.pending_events.push(AudioPipelineThreadEvent::TrackFinished),
                        ..written
                    },
                    AudioPipelineStatus::Idle,
                )
            },
        },
        AudioPipelineProcessStep::ProduceSamples => {
            &&& new =~= written
            &&& new.sink.buffered.len() == 0
            &&& (old.track matches Some(track) && track.status != AudioTrackPipelineStatus::Finished)
        },
    }
}

/// A step of the pipeline never loses, repeats or reorders a sample on its way to
/// the engine queue: the samples delivered so far followed by those still waiting
/// are the same after the step as before it.
pub proof fn lemma_step_keeps_stream(old: AudioPipelineView, new: AudioPipelineView, step: AudioPipelineProcessStep)
    requires
        next_step_taken(old, new, step),
    ensures
        sink::sink_stream(new.sink) =~= sink::sink_stream(old.sink),
{
    sink::lemma_write_keeps_stream(old.sink, new.sink);
}

/// Delivered samples join the end of the stream towards the engine queue, after
/// everything taken in before them.
pub proof fn lemma_delivery_appends_to_stream(
    old: AudioPipelineView,
    new: AudioPipelineView,
    samples: Seq<u32>,
)
    requires
        new.sink == (AudioSinkView { buffered: old.sink.buffered + samples, ..old.sink }),
    ensures
        sink::sink_stream(new.sink) =~= sink::sink_stream(old.sink) + samples,
{
}

/// All the sample runs of `runs`, one after the other.
pub open spec fn joined(runs: Seq<Seq<u32>>) -> Seq<u32>
    decreases runs.len(),
{
    if runs.len() == 0 {
        Seq::empty()
    } else {
        joined(runs.drop_last()) + runs.last()
    }
}

/// One move of the pipeline from `old` to `new` as the engine queue sees it: a
/// step of `next_step` (with no samples taken in), or the delivery of `samples`
/// (see `deliver_samples`).
pub open spec fn stream_move(old: AudioPipelineView, new: AudioPipelineView, samples: Seq<u32>) -> bool {
    ||| samples.len() == 0 && exists|step: AudioPipelineProcessStep| #[trigger] next_step_taken(old, new, step)
    ||| new.sink == (AudioSinkView { buffered: old.sink.buffered + samples, ..old.sink })
}

/// Across any run of steps and deliveries, the samples reach the engine queue in
/// the order they were delivered, none lost or repeated: what the sink has taken in
/// at the end is what it had at the start followed by every delivered run in turn,
/// so the samples written to the queue are always a prefix of that.
pub proof fn lemma_stream_follows_deliveries(views: Seq<AudioPipelineView>, runs: Seq<Seq<u32>>)
    requires
        views.len() == runs.len() + 1,
        forall|i: int| 0 <= i < runs.len() ==> #[trigger] stream_move(views[i], views[i + 1], runs[i]),
    ensures
        sink::sink_stream(views.last().sink) =~= sink::sink_stream(views[0].sink) + joined(runs),
        views.last().sink.delivered.is_prefix_of(sink::sink_stream(views[0].sink) + joined(runs)),
    decreases runs.len(),
{
    let n = runs.len() as int;
    if n > 0 {
        let earlier = views.drop_last();
        assert forall|i: int| 0 <= i < n - 1 implies #[trigger] stream_move(earlier[i], earlier[i + 1], runs.drop_last()[i]) by {
            assert(stream_move(views[i], views[i + 1], runs[i]));
        }
        lemma_stream_follows_deliveries(earlier, runs.drop_last());
        assert(stream_move(views[n - 1], views[n], runs[n - 1]));
        let before = views[n - 1];
        let after = views[n];
        if runs[n - 1].len() == 0 && exists|step: AudioPipelineProcessStep| #[trigger] next_step_taken(before, after, step) {
            let step = choose|step: AudioPipelineProcessStep| #[trigger] next_step_taken(before, after, step);
            lemma_step_keeps_stream(before, after, step);
            assert(runs[n - 1] =~= Seq::<u32>::empty());
        } else {
            lemma_delivery_appends_to_stream(before, after, runs[n - 1]);
        }
        assert(earlier.last() == before);
        assert(joined(runs) == joined(runs.drop_last()) + runs[n - 1]);
    }
    let whole = sink::sink_stream(views[0].sink) + joined(runs);
    let last = views.last().sink;
    assert(whole.subrange(0, last.delivered.len() as int) =~= last.delivered);
}

/// What the pipeline does after its sink was written with outcome `written`, from
/// `old` to `new`, given the free slots of the engine queue read after the write:
/// - a full engine queue: sleep until it drains;
/// - the engine still on an older generation: sleep a millisecond;
/// - no track: the pipeline becomes idle;
/// - a finished track: when nothing waits in the sink and the engine queue has
///   drained (see `queue_drained`), the end of the track is reported and the
///   pipeline becomes idle; otherwise sleep ten milliseconds;
/// - otherwise: produce the next samples.
/// Only a reported end or a status change alters the pipeline.
pub open spec fn stepped_after_write(
    old: AudioPipelineView,
    new: AudioPipelineView,
    written: Result<(), AudioSinkError>,
    free_slots: usize,
    step: AudioPipelineProcessStep,
) -> bool {
    match written {
        Err(AudioSinkError::FullRingBuffer) => step == AudioPipelineProcessStep::SleepUntilQueueDrains
            && new == old,
        Err(AudioSinkError::AwaitingBufferClear) => step == AudioPipelineProcessStep::SleepMilliseconds(1)
            && new == old,
        Ok(()) => match old.track {
            None => step == AudioPipelineProcessStep::Continue && new == with_status(
                old,
                AudioPipelineStatus::Idle,
            ),
            Some(track) => if track.status == AudioTrackPipelineStatus::Finished {
                if old.sink.buffered.len() == 0 && spec_queue_drained(free_slots) {
                    &&& step == AudioPipelineProcessStep::Continue
                    &&& new == with_status(
                        AudioPipelineView {
                            pending_events: old.pending_events.push(AudioPipelineThreadEvent::TrackFinished),
                            ..old
                        },
                        AudioPipelineStatus::Idle,
                    )
                } else {
                    step == AudioPipelineProcessStep::SleepMilliseconds(10) && new == old
                }
            } else {
                step == AudioPipelineProcessStep::ProduceSamples && new == old
            },
        },
    }
}

/// `next_step_taken`, tied to what was read: the engine generation and the
/// pipeline generation, and the free slots of the engine queue. The pipeline sleeps
/// a millisecond exactly when the engine has not caught up (see `caught_up`); and
/// once the buffer is written out, a finished track is reported finished exactly
/// when the engine queue has drained (see `queue_drained`).
pub open spec fn next_step_taken_with(
    old: AudioPipelineView,
    new: AudioPipelineView,
    step: AudioPipelineProcessStep,
    engine_generation: u64,
    pipeline_generation: u64,
    free_slots: usize,
) -> bool {
    &&& next_step_taken(old, new, step)
    &&& (step == AudioPipelineProcessStep::SleepMilliseconds(1)) == !spec_caught_up(
        engine_generation,
        pipeline_generation,
    )
    &&& !spec_caught_up(engine_generation, pipeline_generation) ==> new == old
    &&& (spec_caught_up(engine_generation, pipeline_generation) && new.sink.buffered.len() == 0
        && (old.track matches Some(track) && track.status == AudioTrackPipelineStatus::Finished))
        ==> ((step == AudioPipelineProcessStep::Continue) == spec_queue_drained(free_slots))
}

/// Setting a status the pipeline already has reports nothing and changes nothing:
/// setting the same status twice is the same as setting it once.
pub proof fn lemma_set_status_idempotent(view: AudioPipelineView, status: AudioPipelineStatus)
    ensures
        with_status(with_status(view, status), status) =~= with_status(view, status),
        with_status(view, view.status) =~= view,
{
    assert(status_change_events(status, status) =~= Seq::<AudioPipelineThreadEvent>::empty());
    assert(view.pending_events + Seq::<AudioPipelineThreadEvent>::empty() =~= view.pending_events);
    assert(with_status(view, status).pending_events + Seq::<AudioPipelineThreadEvent>::empty()
        =~= with_status(view, status).pending_events);
}

/// Pausing a pipeline whose track has not finished and then resuming it makes it
/// active again with nothing else changed; the controller hears that it stopped
/// and started again exactly when it was active before.
pub proof fn lemma_pause_then_resume_reactivates(
    view: AudioPipelineView,
    paused: AudioPipelineView,
    paused_directive: AudioPipelineCommandDirective,
    resumed_view: AudioPipelineView,
    resumed_directive: AudioPipelineCommandDirective,
)
    requires
        view.track matches Some(track) && track.status != AudioTrackPipelineStatus::Finished,
        handled_command(view, AudioPipelineThreadCommand::Pause, paused, paused_directive),
        handled_command(paused, AudioPipelineThreadCommand::Resume, resumed_view, resumed_directive),
    ensures
        resumed_view.status == AudioPipelineStatus::Active,
        resumed_directive is Done,
        resumed_view.track == view.track,
        resumed_view.sink == view.sink,
        resumed_view.configuration == view.configuration,
        view.status == AudioPipelineStatus::Active ==> resumed_view.pending_events =~= view.pending_events
            + seq![AudioPipelineThreadEvent::StoppedAudioPipeline, AudioPipelineThreadEvent::StartedAudioPipeline],
        view.status == AudioPipelineStatus::Idle ==> resumed_view.pending_events =~= view.pending_events
            + seq![AudioPipelineThreadEvent::StoppedAudioPipeline, AudioPipelineThreadEvent::StartedAudioPipeline],
        view.status == AudioPipelineStatus::Paused ==> resumed_view.pending_events =~= view.pending_events
            + seq![AudioPipelineThreadEvent::StartedAudioPipeline],
{
    assert(paused =~= with_status(view, AudioPipelineStatus::Paused));
    assert(paused.track == view.track);
    match resumed_directive {
        AudioPipelineCommandDirective::PlayTrack(track) => {
            assert(resumed(paused, resumed_view, AudioPipelineResume::RestartTrack(track)));
            assert(false);
        },
        AudioPipelineCommandDirective::Done => {
            if resumed(paused, resumed_view, AudioPipelineResume::NoTrack) {
                assert(false);
            }
            assert(resumed_view =~= with_status(paused, AudioPipelineStatus::Active));
        },
        _ => {},
    }
}

} // verus!
