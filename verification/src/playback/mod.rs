//! Playback: the controller that the UI talks to, the output engine and the
//! pipeline that feeds it.

pub mod constants;
pub mod engine;
pub mod error;
pub mod handler;
pub mod pipeline;

use std::sync::atomic::{AtomicBool, AtomicU64};
use vstd::prelude::*;

verus! {

/// Generation numbers shared between the pipeline thread and the output callback.
///
/// The pipeline bumps `audio_pipeline` whenever the samples already queued for the
/// engine become stale (a new track or a seek); the engine callback drops its queue
/// and catches `audio_engine` up when it sees the two differ.
pub struct GenerationCounter {
    pub audio_engine: AtomicU64,
    pub audio_pipeline: AtomicU64,
}

/// Whether the engine has caught up with the pipeline: both generations are the same.
pub open spec fn spec_caught_up(engine_generation: u64, pipeline_generation: u64) -> bool {
    engine_generation == pipeline_generation
}

/// See `spec_caught_up`.
pub fn caught_up(engine_generation: u64, pipeline_generation: u64) -> (caught: bool)
    ensures
        caught == spec_caught_up(engine_generation, pipeline_generation),
{
    engine_generation == pipeline_generation
}

impl GenerationCounter {
    /// Both generations start at zero.
    pub fn new() -> (counter: Self) {
        GenerationCounter { audio_engine: AtomicU64::new(0), audio_pipeline: AtomicU64::new(0) }
    }

    /// The engine and the pipeline generations as the pipeline side reads them now
    /// (the engine's with acquire ordering, then the pipeline's).
    pub fn load_generations(&self) -> (generations: (u64, u64)) {
        let audio_engine_generation = self.audio_engine.load(std::sync::atomic::Ordering::Acquire);
        let audio_pipeline_generation = self.audio_pipeline.load(
            std::sync::atomic::Ordering::Relaxed,
        );
        (audio_engine_generation, audio_pipeline_generation)
    }

    /// Starts a new pipeline generation (release ordering).
    pub fn increase_audio_pipeline_generation(&self) {
        let _ = self.audio_pipeline.fetch_add(1, std::sync::atomic::Ordering::Release);
    }
}

} // verus!

use std::sync::Arc;
use std::sync::atomic::AtomicI64;

use vstd::string::StringExecFns;

use crate::ring::{pushed_samples, readable_samples};

use crate::playback::engine::{
    AudioEngine, AudioEngineView, PlaybackEngineError, PlaybackEngineStatus, with_engine_status,
};
use crate::playback::pipeline::AudioFormat;
use crate::playback::pipeline::thread::{
    AudioPipelineThreadCommand, AudioPipelineThreadEvent, send_command,
};
use crate::track::Track;

verus! {

/// Failures of the playback controller.
#[derive(Clone, Debug, PartialEq, Eq)]
pub enum PlaybackControllerError {
    AudioPipelineCommandSendFailed(String),
    AudioPipelineEventReceiveAttemptFailed(String),
    PlaybackEngine(PlaybackEngineError),
}

impl PlaybackControllerError {
    /// The error's message, with the message of the error it wraps.
    pub open spec fn message_text(self) -> Seq<char> {
        match self {
            PlaybackControllerError::AudioPipelineCommandSendFailed(message) => "failed to send command to pipeline: "@
                + message@,
            PlaybackControllerError::AudioPipelineEventReceiveAttemptFailed(message) => "failed to poll event from the pipeline: "@
                + message@,
            PlaybackControllerError::PlaybackEngine(error) => "playback error - "@ + error.message_text(),
        }
    }

    /// The messages of the error and of the engine error that caused it, if any.
    pub open spec fn chain_texts(self) -> Seq<Seq<char>> {
        match self {
            PlaybackControllerError::PlaybackEngine(error) => seq![self.message_text(), error.message_text()],
            _ => seq![self.message_text()],
        }
    }

    /// See `chain_texts`.
    pub fn chain_messages(&self) -> (messages: Vec<String>)
        ensures
            crate::log::texts(messages@) =~= self.chain_texts(),
    {
        let causes = match self {
            PlaybackControllerError::PlaybackEngine(error) => vec![error.message()],
            _ => Vec::new(),
        };
        crate::log::chain_with(self.message(), causes)
    }

    /// See `message_text`.
    pub fn message(&self) -> (text: String)
        ensures
            text@ == self.message_text(),
    {
        match self {
            PlaybackControllerError::AudioPipelineCommandSendFailed(message) => String::from_str(
                "failed to send command to pipeline: ",
            ).concat(message.as_str()),
            PlaybackControllerError::AudioPipelineEventReceiveAttemptFailed(message) => String::from_str(
                "failed to poll event from the pipeline: ",
            ).concat(message.as_str()),
            PlaybackControllerError::PlaybackEngine(error) => {
                let inner = error.message();
                String::from_str("playback error - ").concat(inner.as_str())
            },
        }
    }
}

/// Whether the controller considers playback running.
#[derive(Clone, Copy, Debug, PartialEq, Eq, Structural)]
pub enum PlaybackControllerStatus {
    Playing,
    Stopped,
}

/// Requests that the user interface makes of the controller.
pub enum PlaybackControllerCommand {
    Play(Track),
    Stop,
    Pause,
    Resume,
    Seek(u64),
}

/// Played samples of the current track: the samples played since the track
/// started, or zero when the start lies ahead.
pub open spec fn spec_samples_since_start(samples_played: u64, track_start_timestamp: i64) -> u64 {
    let elapsed = (samples_played as i64).wrapping_sub(track_start_timestamp);
    if elapsed < 0 {
        0
    } else {
        elapsed as u64
    }
}

/// Samples played since `track_start_timestamp`, clamped at zero, computed in
/// two's complement as the controller does.
pub fn samples_since_start(samples_played: u64, track_start_timestamp: i64) -> (played: u64)
    ensures
        played == spec_samples_since_start(samples_played, track_start_timestamp),
        samples_played <= i64::MAX && i64::MIN <= samples_played - track_start_timestamp
            <= i64::MAX ==> played == if samples_played - track_start_timestamp < 0 {
            0
        } else {
            samples_played - track_start_timestamp
        },
{
    let played = samples_played as i64;
    let elapsed = played.wrapping_sub(track_start_timestamp);
    if elapsed < 0 {
        0
    } else {
        elapsed as u64
    }
}

/// After the output callback resynchronized on a new generation whose first sample
/// lies `timestamp_offset` samples into the track (with `samples_played` samples
/// played at that moment), the current-track position it reports once `k` more
/// samples are played is `timestamp_offset + k`: the position restarts at the seek
/// target and advances with every played sample.
pub proof fn lemma_position_restarts_at_offset(samples_played: u64, timestamp_offset: u64, k: u64)
    requires
        samples_played + k <= i64::MAX,
        timestamp_offset + k <= i64::MAX,
    ensures
        spec_samples_since_start(
            (samples_played + k) as u64,
            crate::playback::engine::thread::spec_track_start_timestamp(samples_played, timestamp_offset),
        ) == timestamp_offset + k,
{
}

/// How the controller follows a pipeline event: on `StartedAudioPipeline` the
/// status becomes `Playing` and an engine with a stream plays; on
/// `StoppedAudioPipeline` the status becomes `Stopped` and an engine with a stream
/// is paused; any other event changes nothing. The output format and the stream
/// stay as they were.
pub open spec fn followed_pipeline_event(
    old: PlaybackControllerView,
    new: PlaybackControllerView,
    event: AudioPipelineThreadEvent,
) -> bool {
    &&& new.output_format == old.output_format
    &&& new.sent == old.sent
    &&& event == AudioPipelineThreadEvent::StartedAudioPipeline ==> {
        &&& new.status == PlaybackControllerStatus::Playing
        &&& new.engine == if old.engine.has_stream {
            with_engine_status(old.engine, PlaybackEngineStatus::Playing)
        } else {
            old.engine
        }
    }
    &&& event == AudioPipelineThreadEvent::StoppedAudioPipeline ==> {
        &&& new.status == PlaybackControllerStatus::Stopped
        &&& new.engine == if old.engine.has_stream {
            with_engine_status(old.engine, PlaybackEngineStatus::Paused)
        } else {
            old.engine
        }
    }
    &&& !(event == AudioPipelineThreadEvent::StartedAudioPipeline || event
        == AudioPipelineThreadEvent::StoppedAudioPipeline) ==> new == old
}

/// What `play`, `resume`, `pause` and `stop` do, from `old` to `new` with `result`:
/// without an output stream they fail with `MissingStream` and change nothing.
/// With one, the engine is set playing (`engine_playing`) or paused; then `command`
/// is sent to the pipeline, and the status becomes `status` exactly when that
/// succeeded; otherwise the send failure is returned and the status stays.
pub open spec fn stepped(
    old: PlaybackControllerView,
    new: PlaybackControllerView,
    result: Result<(), PlaybackControllerError>,
    engine_playing: bool,
    status: PlaybackControllerStatus,
    command: AudioPipelineThreadCommand,
) -> bool {
    if !old.engine.has_stream {
        &&& result == Err::<(), PlaybackControllerError>(
            PlaybackControllerError::PlaybackEngine(PlaybackEngineError::MissingStream),
        )
        &&& new == old
    } else {
        &&& new.engine == with_engine_status(
            old.engine,
            if engine_playing {
                PlaybackEngineStatus::Playing
            } else {
                PlaybackEngineStatus::Paused
            },
        )
        &&& new.output_format == old.output_format
        &&& new.sent == old.sent.push(command)
        &&& result is Ok ==> new.status == status
        &&& result is Err ==> new.status == old.status && (result->Err_0 is AudioPipelineCommandSendFailed)
    }
}

/// A new, empty queue between the pipeline and the output callback, with room for
/// `SAMPLE_BUFFER_CAPACITY` samples: the callback reads from the consumer, and the
/// producer goes to the pipeline through `PlaybackController::initialize_output`.
pub fn new_output_queue() -> (queue: (rtrb::Producer<u32>, rtrb::Consumer<u32>))
    ensures
        pushed_samples(queue.0).len() == 0,
        readable_samples(queue.1).len() == 0,
{
    crate::ring::new_sample_queue(constants::SAMPLE_BUFFER_CAPACITY)
}

/// Converts an engine failure into a controller failure.
pub fn engine_error(error: PlaybackEngineError) -> (converted: PlaybackControllerError)
    ensures
        converted == PlaybackControllerError::PlaybackEngine(error),
{
    PlaybackControllerError::PlaybackEngine(error)
}

/// The controller's view: its status, the output format, the engine state, and
/// every command it has handed to the channel towards the pipeline thread, oldest
/// first.
#[verifier::ext_equal]
pub struct PlaybackControllerView {
    pub status: PlaybackControllerStatus,
    pub output_format: Option<AudioFormat>,
    pub engine: AudioEngineView,
    pub sent: Seq<AudioPipelineThreadCommand>,
}

/// Drives playback: it owns the output engine's control state and sends commands
/// to the pipeline thread. The thread itself and the event channel back from it are
/// owned by the application.
pub struct PlaybackController {
    pub status: PlaybackControllerStatus,
    pub output_format: Option<AudioFormat>,
    audio_pipeline_command_sender: std::sync::mpsc::Sender<AudioPipelineThreadCommand>,
    playback_engine: AudioEngine,
    samples_played: Arc<AtomicU64>,
    track_start_timestamp: Arc<AtomicI64>,
    samples_played_timestamp_offset: Arc<AtomicU64>,
    generation_counter: Arc<GenerationCounter>,
    sent_commands: Ghost<Seq<AudioPipelineThreadCommand>>,
}

impl View for PlaybackController {
    type V = PlaybackControllerView;

    closed spec fn view(&self) -> PlaybackControllerView {
        PlaybackControllerView {
            status: self.status,
            output_format: self.output_format,
            engine: self.playback_engine@,
            sent: self.sent_commands@,
        }
    }
}

impl PlaybackController {
    /// A stopped controller without an output format, driving `playback_engine` and
    /// sending to the pipeline thread that shares `samples_played_timestamp_offset`
    /// and `generation_counter` with it.
    pub fn new(
        playback_engine: AudioEngine,
        audio_pipeline_command_sender: std::sync::mpsc::Sender<AudioPipelineThreadCommand>,
        samples_played_timestamp_offset: Arc<AtomicU64>,
        generation_counter: Arc<GenerationCounter>,
    ) -> (controller: Self)
        ensures
            controller@.status == PlaybackControllerStatus::Stopped,
            controller@.output_format is None,
            controller@.engine == playback_engine@,
            controller@.sent.len() == 0,
            controller.shared_cells().2 == samples_played_timestamp_offset,
            controller.shared_cells().3 == generation_counter,
            controller.shared_cells().4 == playback_engine.spec_paused_flag(),
    {
        PlaybackController {
            status: PlaybackControllerStatus::Stopped,
            output_format: None,
            audio_pipeline_command_sender,
            playback_engine,
            samples_played: Arc::new(AtomicU64::new(0)),
            track_start_timestamp: Arc::new(AtomicI64::new(0)),
            samples_played_timestamp_offset,
            generation_counter,
            sent_commands: Ghost(Seq::empty()),
        }
    }

    /// Hands `command` to the channel towards the pipeline thread; it is recorded
    /// as sent whatever the channel answers, and only the channel's refusal is
    /// reported.
    fn send(&mut self, command: AudioPipelineThreadCommand) -> (result: Result<(), PlaybackControllerError>)
        ensures
            final(self)@ == (PlaybackControllerView { sent: old(self)@.sent.push(command), ..old(self)@ }),
            final(self).shared_cells() == old(self).shared_cells(),
            result is Err ==> result->Err_0 is AudioPipelineCommandSendFailed,
    {
        let ghost handed = command;
        proof {
            self.sent_commands = Ghost(self.sent_commands@.push(handed));
        }
        match send_command(&self.audio_pipeline_command_sender, command) {
            Ok(()) => Ok(()),
            Err(message) => Err(PlaybackControllerError::AudioPipelineCommandSendFailed(message)),
        }
    }

    /// The cells the controller shares with the other threads: the played-sample
    /// count, the track start position, the offset of the first queued sample, the
    /// generations and the engine's pause flag.
    pub closed spec fn shared_cells(&self) -> (
        Arc<AtomicU64>,
        Arc<AtomicI64>,
        Arc<AtomicU64>,
        Arc<GenerationCounter>,
        Arc<AtomicBool>,
    ) {
        (
            self.samples_played,
            self.track_start_timestamp,
            self.samples_played_timestamp_offset,
            self.generation_counter,
            self.playback_engine.spec_paused_flag(),
        )
    }

    /// The played-sample count that the output callback adds to.
    pub fn samples_played_counter(&self) -> (counter: Arc<AtomicU64>)
        ensures
            counter == self.shared_cells().0,
    {
        crate::sync::arc_clone(&self.samples_played)
    }

    /// The track start position that the output callback sets.
    pub fn track_start_timestamp_cell(&self) -> (cell: Arc<AtomicI64>)
        ensures
            cell == self.shared_cells().1,
    {
        crate::sync::arc_clone(&self.track_start_timestamp)
    }

    /// The offset of the first queued sample in the current track, set by the pipeline.
    pub fn samples_played_timestamp_offset_cell(&self) -> (cell: Arc<AtomicU64>)
        ensures
            cell == self.shared_cells().2,
    {
        crate::sync::arc_clone(&self.samples_played_timestamp_offset)
    }

    /// The generations shared by the pipeline and the output callback.
    pub fn generation_counter(&self) -> (counter: Arc<GenerationCounter>)
        ensures
            counter == self.shared_cells().3,
    {
        crate::sync::arc_clone(&self.generation_counter)
    }

    /// The pause flag of the output engine.
    pub fn engine_paused_flag(&self) -> (flag: Arc<AtomicBool>)
        ensures
            flag == self.shared_cells().4,
    {
        self.playback_engine.paused_flag()
    }

    /// The output engine's status.
    pub fn engine_status(&self) -> (status: PlaybackEngineStatus)
        ensures
            status == self@.engine.status,
    {
        *self.playback_engine.status()
    }

    /// Completes the output set-up once the application has built the device stream
    /// in `output` format, reading from the queue whose producer is given: the
    /// engine records the stream, the output format is kept and the pipeline is told
    /// to write to the new queue in that format.
    pub fn initialize_output(
        &mut self,
        output: AudioFormat,
        audio_engine_producer: rtrb::Producer<u32>,
    ) -> (result: Result<(), PlaybackControllerError>)
        ensures
            final(self)@.output_format == Some(output),
            final(self)@.engine == (AudioEngineView { has_stream: true, ..old(self)@.engine }),
            final(self)@.status == old(self)@.status,
            final(self)@.sent == old(self)@.sent.push(
                AudioPipelineThreadCommand::ChangeOutput { output, audio_engine_producer },
            ),
            result is Err ==> result->Err_0 is AudioPipelineCommandSendFailed,
    {
        self.playback_engine.attach_stream();
        self.output_format = Some(output);
        self.send(AudioPipelineThreadCommand::ChangeOutput { output, audio_engine_producer })
    }

    /// Sends `command` after the engine step (see `stepped`).
    fn engine_step_then_send(
        &mut self,
        engine_playing: bool,
        command: AudioPipelineThreadCommand,
        status: PlaybackControllerStatus,
    ) -> (result: Result<(), PlaybackControllerError>)
        ensures
            stepped(old(self)@, final(self)@, result, engine_playing, status, command),
    {
        let engine_result = if engine_playing {
            self.playback_engine.play()
        } else {
            self.playback_engine.pause()
        };
        if let Err(error) = engine_result {
            return Err(engine_error(error));
        }
        if let Err(error) = self.send(command) {
            return Err(error);
        }
        self.status = status;
        Ok(())
    }

    /// Starts `track`: the engine is paused until the pipeline reports that it
    /// produces samples, the pipeline is told to play the track, and the status
    /// becomes `Playing`.
    pub fn play(&mut self, track: Track) -> (result: Result<(), PlaybackControllerError>)
        ensures
            stepped(
                old(self)@,
                final(self)@,
                result,
                false,
                PlaybackControllerStatus::Playing,
                AudioPipelineThreadCommand::Play(track),
            ),
    {
        self.engine_step_then_send(
            false,
            AudioPipelineThreadCommand::Play(track),
            PlaybackControllerStatus::Playing,
        )
    }

    /// Resumes: as `play`, for the track the pipeline already has.
    pub fn resume(&mut self) -> (result: Result<(), PlaybackControllerError>)
        ensures
            stepped(
                old(self)@,
                final(self)@,
                result,
                false,
                PlaybackControllerStatus::Playing,
                AudioPipelineThreadCommand::Resume,
            ),
    {
        self.engine_step_then_send(
            false,
            AudioPipelineThreadCommand::Resume,
            PlaybackControllerStatus::Playing,
        )
    }

    /// Pauses: the engine keeps playing what is queued until the pipeline reports
    /// that it stopped, the pipeline is told to pause, and the status becomes
    /// `Stopped`.
    pub fn pause(&mut self) -> (result: Result<(), PlaybackControllerError>)
        ensures
            stepped(
                old(self)@,
                final(self)@,
                result,
                true,
                PlaybackControllerStatus::Stopped,
                AudioPipelineThreadCommand::Pause,
            ),
    {
        self.engine_step_then_send(
            true,
            AudioPipelineThreadCommand::Pause,
            PlaybackControllerStatus::Stopped,
        )
    }

    /// Stops: as `pause`, and the pipeline rewinds the track.
    pub fn stop(&mut self) -> (result: Result<(), PlaybackControllerError>)
        ensures
            stepped(
                old(self)@,
                final(self)@,
                result,
                true,
                PlaybackControllerStatus::Stopped,
                AudioPipelineThreadCommand::Stop,
            ),
    {
        self.engine_step_then_send(
            true,
            AudioPipelineThreadCommand::Stop,
            PlaybackControllerStatus::Stopped,
        )
    }

    /// Asks the pipeline to continue the track from `timestamp` (in track frames).
    pub fn seek(&mut self, timestamp: u64) -> (result: Result<(), PlaybackControllerError>)
        ensures
            final(self)@ == (PlaybackControllerView {
                sent: old(self)@.sent.push(AudioPipelineThreadCommand::Seek(timestamp)),
                ..old(self)@
            }),
            result is Err ==> result->Err_0 is AudioPipelineCommandSendFailed,
    {
        self.send(AudioPipelineThreadCommand::Seek(timestamp))
    }

    /// Tells the pipeline thread to end. The application then waits for the thread,
    /// and only does so when the command was sent.
    pub fn exit_pipeline(&mut self) -> (result: Result<(), PlaybackControllerError>)
        ensures
            final(self)@ == (PlaybackControllerView {
                sent: old(self)@.sent.push(AudioPipelineThreadCommand::Exit),
                ..old(self)@
            }),
            result is Err ==> result->Err_0 is AudioPipelineCommandSendFailed,
    {
        self.send(AudioPipelineThreadCommand::Exit)
    }

    /// Samples of the current track that the engine has played: the played count
    /// minus the track start position, never below zero.
    pub fn current_track_samples_played(&self) -> (played: u64)
        ensures
            exists|samples_played: u64, track_start_timestamp: i64|
                played == spec_samples_since_start(samples_played, track_start_timestamp),
    {
        let track_start_timestamp = self.track_start_timestamp.load(
            std::sync::atomic::Ordering::Acquire,
        );
        let samples_played = self.samples_played.load(std::sync::atomic::Ordering::Relaxed);
        samples_since_start(samples_played, track_start_timestamp)
    }

    /// The generation that the output callback last caught up with (acquire
    /// ordering).
    pub fn audio_engine_generation(&self) -> u64 {
        self.generation_counter.audio_engine.load(std::sync::atomic::Ordering::Acquire)
    }

    /// Follows the pipeline: when it starts producing, a paused engine starts
    /// playing and the status becomes `Playing`; when it stops, a playing engine
    /// pauses and the status becomes `Stopped`. Other events change nothing. An
    /// engine that cannot change state is left as it is.
    pub fn handle_audio_pipeline_event(&mut self, event: &AudioPipelineThreadEvent) -> (result:
        Result<(), PlaybackControllerError>)
        ensures
            result is Ok,
            followed_pipeline_event(old(self)@, final(self)@, *event),
    {
        match event {
            AudioPipelineThreadEvent::StartedAudioPipeline => {
                if *self.playback_engine.status() == PlaybackEngineStatus::Paused {
                    let _ = self.playback_engine.play();
                }
                self.status = PlaybackControllerStatus::Playing;
            },
            AudioPipelineThreadEvent::StoppedAudioPipeline => {
                if *self.playback_engine.status() == PlaybackEngineStatus::Playing {
                    let _ = self.playback_engine.pause();
                }
                self.status = PlaybackControllerStatus::Stopped;
            },
            _ => {},
        }
        Ok(())
    }
}

} // verus!
