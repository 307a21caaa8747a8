//! The decoder stage's state and decisions; reading and decoding the file is done
//! by the driving thread.

use vstd::prelude::*;
use vstd::string::StringExecFns;

use crate::playback::pipeline::{AudioPipelineCommand, AudioPipelineCommandOutcome};
use crate::playback::pipeline::stage::{AudioPipelineSamples, carried, is_end};
use crate::playback::pipeline::thread::AudioPipelineThreadEvent;

verus! {

/// Failures of the decoder. Errors of the decoding library and of the file system
/// carry their message.
#[derive(Clone, Debug, PartialEq, Eq)]
pub enum AudioDecoderError {
    UnexpectedError,
    MissingAudioTrack,
    MissingCodecParameters,
    RecoverableDecoderError(String),
    DecoderError(String),
    Io(String),
}

impl AudioDecoderError {
    /// The error's message.
    pub open spec fn message_text(self) -> Seq<char> {
        match self {
            AudioDecoderError::UnexpectedError => "unexpected error"@,
            AudioDecoderError::MissingAudioTrack => "missing audio track"@,
            AudioDecoderError::MissingCodecParameters => "missing codec parameters"@,
            AudioDecoderError::RecoverableDecoderError(message) => "recoverable audio decoder error: "@
                + message@,
            AudioDecoderError::DecoderError(message) => "audio decoder error: "@ + message@,
            AudioDecoderError::Io(message) => "io error: "@ + message@,
        }
    }

    /// See `message_text`.
    pub fn message(&self) -> (text: String)
        ensures
            text@ == self.message_text(),
    {
        match self {
            AudioDecoderError::UnexpectedError => String::from_str("unexpected error"),
            AudioDecoderError::MissingAudioTrack => String::from_str("missing audio track"),
            AudioDecoderError::MissingCodecParameters => String::from_str("missing codec parameters"),
            AudioDecoderError::RecoverableDecoderError(message) => String::from_str(
                "recoverable audio decoder error: ",
            ).concat(message.as_str()),
            AudioDecoderError::DecoderError(message) => String::from_str("audio decoder error: ").concat(
                message.as_str(),
            ),
            AudioDecoderError::Io(message) => String::from_str("io error: ").concat(message.as_str()),
        }
    }
}

/// How decoding a packet failed, as the decoding library reports it.
pub enum DecodeFailure {
    /// The decoder must be reset before it can go on.
    ResetRequired,
    /// The packet held invalid data.
    Decode(String),
    /// Reading the packet failed.
    Io(String),
    /// Any other failure.
    Other(String),
}

/// Whether the decoder still decodes or has reached the end of the track.
#[derive(Clone, Copy, Debug, PartialEq, Eq, Structural)]
pub enum AudioDecoderStatus {
    Finished,
    Decoding,
}

/// The decoder stage's state: its status and the events it has not yet reported.
pub struct AudioDecoderState {
    pub status: AudioDecoderStatus,
    pub pending_events: Vec<AudioPipelineThreadEvent>,
}

impl AudioDecoderState {
    /// A decoder at the start of its track.
    pub fn new() -> (state: Self)
        ensures
            state.status == AudioDecoderStatus::Decoding,
            state.pending_events@.len() == 0,
    {
        AudioDecoderState { status: AudioDecoderStatus::Decoding, pending_events: Vec::new() }
    }

    /// The stage works until the track's packets run out.
    pub fn is_enabled(&self) -> (enabled: bool)
        ensures
            enabled == (self.status != AudioDecoderStatus::Finished),
    {
        self.status != AudioDecoderStatus::Finished
    }

    /// No packet of the track is left: decoding has finished, which is reported,
    /// and an empty last chunk comes out.
    pub fn finish(&mut self) -> (samples: AudioPipelineSamples)
        ensures
            final(self).status == AudioDecoderStatus::Finished,
            final(self).pending_events@ == old(self).pending_events@.push(
                AudioPipelineThreadEvent::DecodingFinished,
            ),
            is_end(samples),
            carried(samples).len() == 0,
    {
        self.status = AudioDecoderStatus::Finished;
        self.pending_events.push(AudioPipelineThreadEvent::DecodingFinished);
        AudioPipelineSamples::End(Vec::new())
    }

    /// After a seek the decoder decodes again.
    pub fn seeked(&mut self)
        ensures
            final(self).status == AudioDecoderStatus::Decoding,
            final(self).pending_events@ == old(self).pending_events@,
    {
        self.status = AudioDecoderStatus::Decoding;
    }

    /// Hands over the events for the controller, oldest first, and forgets them.
    pub fn take_pending_events(&mut self) -> (events: Vec<AudioPipelineThreadEvent>)
        ensures
            events@ == old(self).pending_events@,
            final(self).pending_events@.len() == 0,
            final(self).status == old(self).status,
    {
        let mut events = Vec::new();
        std::mem::swap(&mut events, &mut self.pending_events);
        events
    }
}

/// Classifies a decode failure: a required reset, invalid data and read failures are
/// recoverable (the decoder is reset in the first case); anything else is not.
pub fn classify_decode_failure(failure: DecodeFailure) -> (classified: (AudioDecoderError, bool))
    ensures
        match failure {
            DecodeFailure::ResetRequired => classified.1 && (classified.0 matches AudioDecoderError::RecoverableDecoderError(message)
                && message@ == "reset was required"@),
            DecodeFailure::Decode(message) => classified == (AudioDecoderError::RecoverableDecoderError(message), false),
            DecodeFailure::Io(message) => classified == (AudioDecoderError::RecoverableDecoderError(message), false),
            DecodeFailure::Other(message) => classified == (AudioDecoderError::DecoderError(message), false),
        },
{
    match failure {
        DecodeFailure::ResetRequired => (
            AudioDecoderError::RecoverableDecoderError("reset was required".to_owned()),
            true,
        ),
        DecodeFailure::Decode(message) => (AudioDecoderError::RecoverableDecoderError(message), false),
        DecodeFailure::Io(message) => (AudioDecoderError::RecoverableDecoderError(message), false),
        DecodeFailure::Other(message) => (AudioDecoderError::DecoderError(message), false),
    }
}

/// Where a command sends the decoder: a seek goes, coarsely, to the requested
/// position; a stop goes accurately back to the start. Returns the position (in
/// track frames) and whether the seek must be accurate.
pub fn seek_target(command: AudioPipelineCommand) -> (target: (u64, bool))
    ensures
        target == match command {
            AudioPipelineCommand::Seek(timestamp) => (timestamp, false),
            AudioPipelineCommand::Stop => (0u64, true),
        },
{
    match command {
        AudioPipelineCommand::Seek(timestamp) => (timestamp, false),
        AudioPipelineCommand::Stop => (0, true),
    }
}

/// The outcome a decoder stage reports after a command: after a seek, the position
/// the decoder actually reached; after a stop, the start of the track.
pub fn seek_outcome(command: AudioPipelineCommand, reached: u64) -> (outcome: AudioPipelineCommandOutcome)
    ensures
        outcome == match command {
            AudioPipelineCommand::Seek(_) => AudioPipelineCommandOutcome::SeekedTo(reached),
            AudioPipelineCommand::Stop => AudioPipelineCommandOutcome::SeekedTo(0),
        },
{
    match command {
        AudioPipelineCommand::Seek(_) => AudioPipelineCommandOutcome::SeekedTo(reached),
        AudioPipelineCommand::Stop => AudioPipelineCommandOutcome::SeekedTo(0),
    }
}

} // verus!
