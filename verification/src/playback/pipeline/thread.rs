//! Messages between the playback controller and the audio pipeline thread.

use vstd::prelude::*;

use crate::playback::pipeline::AudioFormat;
use crate::track::{Track, TrackId};

verus! {

#[verifier::external_type_specification]
#[verifier::external_body]
#[verifier::reject_recursive_types(T)]
pub struct ExSender<T>(std::sync::mpsc::Sender<T>);

#[verifier::external_type_specification]
#[verifier::external_body]
#[verifier::reject_recursive_types(T)]
pub struct ExReceiver<T>(std::sync::mpsc::Receiver<T>);

/// Commands that the controller sends to the pipeline thread.
pub enum AudioPipelineThreadCommand {
    Play(Track),
    Pause,
    Resume,
    PlayNext,
    PlayPrevious,
    Seek(u64),
    Stop,
    ChangeNextTrack(Track),
    ChangeOutput { output: AudioFormat, audio_engine_producer: rtrb::Producer<u32> },
    Exit,
}

/// Events that the pipeline thread reports to the controller.
#[derive(Clone, Debug, PartialEq, Eq, Structural)]
pub enum AudioPipelineThreadEvent {
    StartedAudioPipeline,
    StoppedAudioPipeline,
    ActiveTrackChanged { track_id: TrackId },
    DecodingFinished,
    TrackFinished,
    Exited,
}

/// Events of a pipeline thread that only reports its own end, the end of decoding
/// and the end of the track.
#[derive(Clone, Copy, Debug, PartialEq, Eq, Structural)]
pub enum AudioPipelineEvent {
    Exited,
    DecodingEnded,
    EndOfTrack,
}

/// Sends a command to the pipeline thread (`std::sync::mpsc::Sender::send`).
///
/// Trusted contract: none on the result. `send` fails, handing back its message
/// text, exactly when the receiving side has been dropped, which depends on the
/// other thread.
#[verifier::external_body]
pub(crate) fn send_command(
    sender: &std::sync::mpsc::Sender<AudioPipelineThreadCommand>,
    command: AudioPipelineThreadCommand,
) -> (sent: Result<(), String>) {
    match sender.send(command) {
        Ok(()) => Ok(()),
        Err(error) => Err(error.to_string()),
    }
}

} // verus!
