//! Gathering what the pipeline needs before it can start: an output.

use std::sync::Arc;
use std::sync::atomic::AtomicU64;
use vstd::prelude::*;
use vstd::string::StringExecFns;

use crate::playback::GenerationCounter;
use crate::playback::pipeline::{AudioFormat, AudioPipeline, AudioPipelineConfiguration, AudioPipelineStatus};
use crate::playback::pipeline::command::{AudioPipelineCommandReceiver, receive_command};
use crate::playback::pipeline::sink::AudioSink;
use crate::playback::pipeline::thread::AudioPipelineThreadCommand;
use crate::ring::pushed_samples;
use crate::track::Track;

verus! {

/// Failures while gathering the pipeline's parameters.
#[derive(Clone, Debug, PartialEq, Eq)]
pub enum AudioPipelineBuilderError {
    MissingParameters(String),
    ReceiveFailed(String),
}

impl AudioPipelineBuilderError {
    /// The error's message.
    pub open spec fn message_text(self) -> Seq<char> {
        match self {
            AudioPipelineBuilderError::MissingParameters(message) => "Missing parameter: "@ + message@,
            AudioPipelineBuilderError::ReceiveFailed(message) => "Failed to receive audio pipeline command: "@
                + message@,
        }
    }

    /// See `message_text`.
    pub fn message(&self) -> (text: String)
        ensures
            text@ == self.message_text(),
    {
        match self {
            AudioPipelineBuilderError::MissingParameters(message) => String::from_str(
                "Missing parameter: ",
            ).concat(message.as_str()),
            AudioPipelineBuilderError::ReceiveFailed(message) => String::from_str(
                "Failed to receive audio pipeline command: ",
            ).concat(message.as_str()),
        }
    }
}

/// The output the pipeline writes to: its format and the engine queue.
pub struct AudioPipelineOutput {
    pub format: AudioFormat,
    pub audio_engine_producer: rtrb::Producer<u32>,
}

/// The builder's view: the track to start with, and the output format and the
/// engine queue end to write into, once known.
pub struct AudioPipelineBuilderView {
    pub track: Option<Track>,
    pub output: Option<AudioFormat>,
    pub producer: Option<rtrb::Producer<u32>>,
}

/// How the builder takes in `command`, going from `old` to `new`: `Play` sets the
/// initial track, `ChangeOutput` sets the output format and queue end and makes the
/// pipeline ready to build (`output_ready`); any other command changes nothing.
pub open spec fn took_in(
    old: AudioPipelineBuilderView,
    command: AudioPipelineThreadCommand,
    new: AudioPipelineBuilderView,
    output_ready: bool,
) -> bool {
    new == after_command(old, command) && output_ready == (command is ChangeOutput)
}

/// The builder's view `view` after taking in `command` (see `took_in`).
pub open spec fn after_command(
    view: AudioPipelineBuilderView,
    command: AudioPipelineThreadCommand,
) -> AudioPipelineBuilderView {
    match command {
        AudioPipelineThreadCommand::Play(track) => AudioPipelineBuilderView { track: Some(track), ..view },
        AudioPipelineThreadCommand::ChangeOutput { output, audio_engine_producer } => {
            AudioPipelineBuilderView {
                output: Some(output),
                producer: Some(audio_engine_producer),
                ..view
            }
        },
        _ => view,
    }
}

/// The builder's view `view` after taking in `commands`, oldest first.
pub open spec fn after_commands(
    view: AudioPipelineBuilderView,
    commands: Seq<AudioPipelineThreadCommand>,
) -> AudioPipelineBuilderView
    decreases commands.len(),
{
    if commands.len() == 0 {
        view
    } else {
        after_command(after_commands(view, commands.drop_last()), commands.last())
    }
}

/// Whether `commands` is what `build` takes in before building: commands up to and
/// including the first `ChangeOutput`.
pub open spec fn taken_until_output(commands: Seq<AudioPipelineThreadCommand>) -> bool {
    &&& commands.len() > 0
    &&& commands.last() is ChangeOutput
    &&& forall|i: int| 0 <= i < commands.len() - 1 ==> !(#[trigger] commands[i] is ChangeOutput)
}

/// Collects the initial track and the output from the command channel.
pub struct AudioPipelineBuilder {
    track: Option<Track>,
    output: Option<AudioPipelineOutput>,
    command_receiver: std::sync::mpsc::Receiver<AudioPipelineThreadCommand>,
    samples_played_timestamp_offset: Arc<AtomicU64>,
    generation_counter: Arc<GenerationCounter>,
}

/// How the builder goes from `old` to `new` on taking in some command, whichever
/// came (see `took_in`).
pub open spec fn took_in_received(
    old: AudioPipelineBuilderView,
    new: AudioPipelineBuilderView,
    output_ready: bool,
) -> bool {
    exists|command: AudioPipelineThreadCommand| #[trigger] took_in(old, command, new, output_ready)
}

impl View for AudioPipelineBuilder {
    type V = AudioPipelineBuilderView;

    closed spec fn view(&self) -> AudioPipelineBuilderView {
        AudioPipelineBuilderView {
            track: self.track,
            output: match self.output {
                Some(output) => Some(output.format),
                None => None,
            },
            producer: match self.output {
                Some(output) => Some(output.audio_engine_producer),
                None => None,
            },
        }
    }
}

impl AudioPipelineBuilder {
    /// The command channel the builder reads, and the cells the pipeline it builds
    /// shares: the offset of the first queued sample in the track, and the
    /// generations.
    pub closed spec fn shared_cells(&self) -> (
        std::sync::mpsc::Receiver<AudioPipelineThreadCommand>,
        Arc<AtomicU64>,
        Arc<GenerationCounter>,
    ) {
        (self.command_receiver, self.samples_played_timestamp_offset, self.generation_counter)
    }

    /// A builder that knows neither a track nor an output yet, reading from
    /// `command_receiver` and building a pipeline that shares the given cells.
    pub fn new(
        command_receiver: std::sync::mpsc::Receiver<AudioPipelineThreadCommand>,
        samples_played_timestamp_offset: Arc<AtomicU64>,
        generation_counter: Arc<GenerationCounter>,
    ) -> (builder: Self)
        ensures
            builder@.track is None,
            builder@.output is None,
            builder@.producer is None,
            builder.shared_cells() == (
                command_receiver,
                samples_played_timestamp_offset,
                generation_counter,
            ),
    {
        AudioPipelineBuilder {
            track: None,
            output: None,
            command_receiver,
            samples_played_timestamp_offset,
            generation_counter,
        }
    }

    /// Takes in one command: `Play` sets the initial track, `ChangeOutput` sets the
    /// output and returns `true` (the pipeline can be built); any other command is
    /// not supported before the pipeline exists and changes nothing.
    pub fn handle_command(&mut self, command: AudioPipelineThreadCommand) -> (output_ready: bool)
        ensures
            took_in(old(self)@, command, final(self)@, output_ready),
            final(self).shared_cells() == old(self).shared_cells(),
    {
        match command {
            AudioPipelineThreadCommand::Play(track) => {
                self.track = Some(track);
                false
            },
            AudioPipelineThreadCommand::ChangeOutput { output, audio_engine_producer } => {
                self.output = Some(AudioPipelineOutput { format: output, audio_engine_producer });
                true
            },
            _ => false,
        }
    }

    /// Waits for the next command and takes it in (see `handle_command`); fails when
    /// the controller is gone.
    pub fn receive_and_handle_command(&mut self) -> (result: Result<bool, AudioPipelineBuilderError>)
        ensures
            result matches Err(error) ==> error is ReceiveFailed && final(self)@ == old(self)@,
            result matches Ok(output_ready) ==> took_in_received(old(self)@, final(self)@, output_ready),
            final(self).shared_cells() == old(self).shared_cells(),
    {
        match receive_command(&self.command_receiver) {
            Ok(command) => {
                let ghost received = command;
                let output_ready = self.handle_command(command);
                assert(took_in(old(self)@, received, self@, output_ready));
                Ok(output_ready)
            },
            Err(message) => Err(AudioPipelineBuilderError::ReceiveFailed(message)),
        }
    }

    /// Takes in commands until the first `ChangeOutput`, then builds the pipeline
    /// (see `assemble`) from what they gave: that output, and the track of the last
    /// `Play` before it, if any. Fails with `ReceiveFailed` when the controller goes away first.
    /// Waiting is bounded by the range of a 64-bit counter; should it run out, the
    /// output is still missing and the build fails with `MissingParameters`.
    pub fn build(self) -> (built: Result<
        (AudioPipeline, AudioPipelineCommandReceiver, Option<Track>),
        AudioPipelineBuilderError,
    >)
        ensures
            built matches Err(error) ==> error is ReceiveFailed || error is MissingParameters,
            built matches Ok((pipeline, receiver, track)) ==> {
                &&& pipeline@.status == AudioPipelineStatus::Idle
                &&& pipeline@.track is None
                &&& pipeline@.configuration.volume_percentage == 100
                &&& pipeline@.sink.buffered.len() == 0
                &&& pipeline@.pending_events.len() == 0
                &&& pipeline.shared_cells() == (self.shared_cells().1, self.shared_cells().2)
                &&& receiver.channel() == self.shared_cells().0
                &&& exists|commands: Seq<AudioPipelineThreadCommand>|
                    #![trigger after_commands(self@, commands)]
                    {
                        let end = after_commands(self@, commands);
                        &&& taken_until_output(commands)
                        &&& pipeline@.configuration == (AudioPipelineConfiguration {
                            volume_percentage: 100,
                            output: end.output->0,
                        })
                        &&& track == end.track
                        &&& end.producer matches Some(producer) && pipeline.sink_producer() == producer
                            && pipeline@.sink.delivered == pushed_samples(producer)
                    }
            },
    {
        let ghost cells = self.shared_cells();
        let ghost start = self@;
        let ghost mut taken: Seq<AudioPipelineThreadCommand> = Seq::empty();
        let mut builder = self;
        let mut remaining: u64 = u64::MAX;
        loop
            invariant
                builder.shared_cells() == cells,
                cells == self.shared_cells(),
                start == self@,
                builder@ == after_commands(start, taken),
                forall|i: int| 0 <= i < taken.len() ==> !(#[trigger] taken[i] is ChangeOutput),
            decreases remaining,
        {
            if remaining == 0 {
                return Err(
                    AudioPipelineBuilderError::MissingParameters("Output Configuration".to_string()),
                );
            }
            let ghost before = builder@;
            let received = builder.receive_and_handle_command();
            proof {
                if received is Ok {
                    let command = choose|command: AudioPipelineThreadCommand|
                        #[trigger] took_in(before, command, builder@, received->Ok_0);
                    assert(taken.push(command).drop_last() =~= taken);
                    taken = taken.push(command);
                    assert(builder@ == after_commands(start, taken));
                }
            }
            match received {
                Ok(true) => {
                    assert(taken_until_output(taken));
                    return builder.assemble();
                },
                Ok(false) => {},
                Err(error) => {
                    return Err(error);
                },
            }
            remaining = remaining - 1;
        }
    }

    /// Builds the pipeline from what was collected: full volume, the output's format,
    /// an empty sink writing to the output's queue, idle. The initial track, if one
    /// was given, comes back for the driving thread to start. Without an output it
    /// fails with `MissingParameters`.
    pub fn assemble(self) -> (built: Result<
        (AudioPipeline, AudioPipelineCommandReceiver, Option<Track>),
        AudioPipelineBuilderError,
    >)
        ensures
            self@.output is None <==> built is Err,
            built matches Err(error) ==> error is MissingParameters,
            built matches Ok((pipeline, receiver, track)) ==> {
                &&& pipeline@.status == AudioPipelineStatus::Idle
                &&& pipeline@.track is None
                &&& pipeline@.configuration == (AudioPipelineConfiguration {
                    volume_percentage: 100,
                    output: self@.output->0,
                })
                &&& self@.producer matches Some(producer) && pipeline.sink_producer() == producer
                    && pipeline@.sink.delivered == pushed_samples(producer)
                &&& pipeline@.sink.buffered.len() == 0
                &&& pipeline@.pending_events.len() == 0
                &&& track == self@.track
                &&& pipeline.shared_cells() == (self.shared_cells().1, self.shared_cells().2)
                &&& receiver.channel() == self.shared_cells().0
            },
    {
        let AudioPipelineBuilder {
            track,
            output,
            command_receiver,
            samples_played_timestamp_offset,
            generation_counter,
        } = self;
        let output = match output {
            Some(output) => output,
            None => {
                return Err(
                    AudioPipelineBuilderError::MissingParameters("Output Configuration".to_string()),
                );
            },
        };
        let configuration = AudioPipelineConfiguration { volume_percentage: 100, output: output.format };
        let audio_sink = AudioSink::new(
            output.audio_engine_producer,
            crate::sync::arc_clone(&generation_counter),
        );
        let pipeline = AudioPipeline::new(
            configuration,
            audio_sink,
            samples_played_timestamp_offset,
            generation_counter,
        );
        Ok((pipeline, AudioPipelineCommandReceiver::new(command_receiver), track))
    }
}

} // verus!
