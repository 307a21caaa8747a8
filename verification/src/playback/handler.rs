//! How the application answers playback messages: events of the pipeline thread,
//! changes of the output device and the periodic poll of the playback position.

use vstd::prelude::*;

use crate::error::AppError;
use crate::outcome::{find_track, next_track_id, spec_find_track, spec_first_track, spec_next_track_id};
use crate::playback::pipeline::AudioFormat;
use crate::playback::pipeline::thread::{AudioPipelineThreadCommand, AudioPipelineThreadEvent};
use crate::playback::{
    followed_pipeline_event, stepped, PlaybackController, PlaybackControllerError,
    PlaybackControllerStatus, PlaybackControllerView, spec_samples_since_start,
};
use crate::track::{Track, TrackId};

verus! {

/// Playback messages that reach the application.
pub enum Message {
    /// The pipeline thread reported this event.
    AudioPipelineEvent(AudioPipelineThreadEvent),
    /// The default output device changed.
    PendingOutputDeviceChange,
    /// The output was rebuilt on the new device.
    OutputDeviceChanged,
    /// The output could not be rebuilt.
    OutputDeviceChangeFailed(PlaybackControllerError),
    /// Time to move the playback bar.
    PollPlaybackCurrentPlaybackPosition,
}

/// Where the playback bar stands: `samples_played` samples of the current track in
/// the `output` format, of a track decoded at `track_sample_rate`. In track frames
/// the position is `samples_played * track_sample_rate / output.sample_rate /
/// output.channels`.
#[derive(Clone, Copy, Debug, PartialEq, Eq, Structural)]
pub struct PlaybackProgress {
    pub samples_played: u64,
    pub track_sample_rate: i64,
    pub output: AudioFormat,
}

/// What the application has to do after a playback message.
#[derive(Debug)]
pub enum PlaybackReaction {
    Nothing,
    /// This track now plays; the panes are told that playing a track was attempted.
    PlayedTrack(TrackId),
    /// Log this failure.
    Failed(AppError),
    /// Build the output stream on the new default device, complete it with
    /// `PlaybackController::initialize_output`, and report `OutputDeviceChanged` or
    /// `OutputDeviceChangeFailed`.
    RebuildOutput,
    /// Move the playback bar.
    Progressed(PlaybackProgress),
}

/// The sample rate of the current track, looked up among `tracks`.
pub open spec fn spec_current_track_rate(tracks: Seq<Track>, current: Option<TrackId>) -> Option<i64> {
    match current {
        None => None,
        Some(track_id) => match spec_first_track(tracks, track_id) {
            None => None,
            Some(track) => Some(track.sample_rate),
        },
    }
}

/// Whether the playback bar moves on a poll, and with what: only while playing,
/// with a current track and an output format, and once the output callback has
/// reached a generation beyond `generation_threshold` (the bar's own position
/// is newer until then).
pub open spec fn spec_position_due(
    status: PlaybackControllerStatus,
    track_sample_rate: Option<i64>,
    output_format: Option<AudioFormat>,
    audio_engine_generation: u64,
    generation_threshold: u64,
) -> Option<(i64, AudioFormat)> {
    if status == PlaybackControllerStatus::Stopped {
        None
    } else {
        match (track_sample_rate, output_format) {
            (Some(rate), Some(output)) => if audio_engine_generation <= generation_threshold {
                None
            } else {
                Some((rate, output))
            },
            _ => None,
        }
    }
}

/// See `spec_position_due`.
pub fn position_due(
    status: PlaybackControllerStatus,
    track_sample_rate: Option<i64>,
    output_format: Option<AudioFormat>,
    audio_engine_generation: u64,
    generation_threshold: u64,
) -> (due: Option<(i64, AudioFormat)>)
    ensures
        due == spec_position_due(
            status,
            track_sample_rate,
            output_format,
            audio_engine_generation,
            generation_threshold,
        ),
{
    if status == PlaybackControllerStatus::Stopped {
        return None;
    }
    match (track_sample_rate, output_format) {
        (Some(rate), Some(output)) => if audio_engine_generation <= generation_threshold {
            None
        } else {
            Some((rate, output))
        },
        _ => None,
    }
}

/// The sample rate of the track with identifier `current`, if it is among `tracks`.
fn current_track_rate(tracks: &Vec<Track>, current: Option<TrackId>) -> (rate: Option<i64>)
    ensures
        rate == spec_current_track_rate(tracks@, current),
{
    match current {
        None => None,
        Some(track_id) => match find_track(tracks, track_id) {
            Ok(track) => Some(track.sample_rate),
            Err(_) => None,
        },
    }
}

/// Plays the track with identifier `track_id` and makes it the current track. The
/// track must be among `tracks`; on failure the current track stays what it was.
pub fn play_track(
    playback_controller: &mut PlaybackController,
    tracks: &Vec<Track>,
    current_playing_track_id: &mut Option<TrackId>,
    track_id: TrackId,
) -> (result: Result<(), AppError>)
    ensures
        played_track(
            old(playback_controller)@,
            final(playback_controller)@,
            *old(current_playing_track_id),
            *final(current_playing_track_id),
            tracks@,
            track_id,
            result,
        ),
{
    let track = match find_track(tracks, track_id) {
        Ok(track) => track,
        Err(error) => {
            return Err(error);
        },
    };
    match playback_controller.play(track) {
        Ok(()) => {
            *current_playing_track_id = Some(track_id);
            Ok(())
        },
        Err(error) => Err(AppError::PlaybackController(error)),
    }
}

/// What `play_track` promises: an unknown identifier fails with `TrackNotFound`
/// and changes nothing; otherwise the controller plays the track (see `stepped`),
/// and the track becomes the current one exactly when that succeeded.
pub open spec fn played_track(
    old_controller: PlaybackControllerView,
    new_controller: PlaybackControllerView,
    old_current: Option<TrackId>,
    new_current: Option<TrackId>,
    tracks: Seq<Track>,
    track_id: TrackId,
    result: Result<(), AppError>,
) -> bool {
    match spec_find_track(tracks, track_id) {
        Err(error) => {
            &&& result == Err::<(), AppError>(error)
            &&& new_controller == old_controller
            &&& new_current == old_current
        },
        Ok(track) => exists|played: Result<(), PlaybackControllerError>|
            {
                &&& stepped(
                    old_controller,
                    new_controller,
                    played,
                    false,
                    PlaybackControllerStatus::Playing,
                    AudioPipelineThreadCommand::Play(track),
                )
                &&& match played {
                    Ok(()) => result is Ok && new_current == Some(track_id),
                    Err(error) => result == Err::<(), AppError>(AppError::PlaybackController(error))
                        && new_current == old_current,
                }
            },
    }
}

/// Answers a playback message. A pipeline event is first followed by the
/// controller; when it reports the end of the track, the next displayed track is
/// played. A device change asks for the output to be rebuilt, and a failed rebuild
/// is reported. A poll moves the playback bar as `spec_position_due` says, with
/// the samples of the current track played so far.
pub fn handle_playback(
    playback_controller: &mut PlaybackController,
    tracks: &Vec<Track>,
    displayed_track_ids: &Vec<TrackId>,
    current_playing_track_id: &mut Option<TrackId>,
    position_generation_threshold: u64,
    message: Message,
) -> (reaction: PlaybackReaction)
    ensures
        match message {
            Message::AudioPipelineEvent(event) => if event == AudioPipelineThreadEvent::TrackFinished {
                match spec_next_track_id(displayed_track_ids@, *old(current_playing_track_id)) {
                    None => {
                        &&& reaction is Nothing
                        &&& final(playback_controller)@ == old(playback_controller)@
                        &&& *final(current_playing_track_id) == *old(current_playing_track_id)
                    },
                    Some(next) => exists|result: Result<(), AppError>|
                        {
                            &&& played_track(
                                old(playback_controller)@,
                                final(playback_controller)@,
                                *old(current_playing_track_id),
                                *final(current_playing_track_id),
                                tracks@,
                                next,
                                result,
                            )
                            &&& match result {
                                Ok(()) => reaction == PlaybackReaction::PlayedTrack(next),
                                Err(error) => reaction == PlaybackReaction::Failed(error),
                            }
                        },
                }
            } else {
                &&& reaction is Nothing
                &&& followed_pipeline_event(old(playback_controller)@, final(playback_controller)@, event)
                &&& *final(current_playing_track_id) == *old(current_playing_track_id)
            },
            Message::PendingOutputDeviceChange => {
                &&& reaction is RebuildOutput
                &&& final(playback_controller)@ == old(playback_controller)@
                &&& *final(current_playing_track_id) == *old(current_playing_track_id)
            },
            Message::OutputDeviceChanged => {
                &&& reaction is Nothing
                &&& final(playback_controller)@ == old(playback_controller)@
                &&& *final(current_playing_track_id) == *old(current_playing_track_id)
            },
            Message::OutputDeviceChangeFailed(error) => {
                &&& reaction == PlaybackReaction::Failed(AppError::PlaybackController(error))
                &&& final(playback_controller)@ == old(playback_controller)@
                &&& *final(current_playing_track_id) == *old(current_playing_track_id)
            },
            Message::PollPlaybackCurrentPlaybackPosition => {
                &&& final(playback_controller)@ == old(playback_controller)@
                &&& *final(current_playing_track_id) == *old(current_playing_track_id)
                &&& reaction is Nothing || reaction is Progressed
                &&& reaction matches PlaybackReaction::Progressed(progress) ==> exists|generation: u64|
                    spec_position_due(
                        old(playback_controller)@.status,
                        spec_current_track_rate(tracks@, *old(current_playing_track_id)),
                        old(playback_controller)@.output_format,
                        generation,
                        position_generation_threshold,
                    ) == Some((progress.track_sample_rate, progress.output))
                &&& reaction matches PlaybackReaction::Progressed(progress) ==> exists|
                    samples_played: u64,
                    track_start_timestamp: i64,
                |
                    progress.samples_played == spec_samples_since_start(
                        samples_played,
                        track_start_timestamp,
                    )
                &&& (forall|generation: u64|
                    spec_position_due(
                        old(playback_controller)@.status,
                        spec_current_track_rate(tracks@, *old(current_playing_track_id)),
                        old(playback_controller)@.output_format,
                        generation,
                        position_generation_threshold,
                    ) is None) ==> reaction is Nothing
            },
        },
{
    match message {
        Message::AudioPipelineEvent(event) => {
            let _ = playback_controller.handle_audio_pipeline_event(&event);
            if event == AudioPipelineThreadEvent::TrackFinished {
                match next_track_id(displayed_track_ids, *current_playing_track_id) {
                    None => PlaybackReaction::Nothing,
                    Some(next) => {
                        let result = play_track(
                            playback_controller,
                            tracks,
                            current_playing_track_id,
                            next,
                        );
                        match result {
                            Ok(()) => PlaybackReaction::PlayedTrack(next),
                            Err(error) => PlaybackReaction::Failed(error),
                        }
                    },
                }
            } else {
                PlaybackReaction::Nothing
            }
        },
        Message::PendingOutputDeviceChange => PlaybackReaction::RebuildOutput,
        Message::OutputDeviceChanged => PlaybackReaction::Nothing,
        Message::OutputDeviceChangeFailed(error) => PlaybackReaction::Failed(
            AppError::PlaybackController(error),
        ),
        Message::PollPlaybackCurrentPlaybackPosition => {
            let track_sample_rate = current_track_rate(tracks, *current_playing_track_id);
            let audio_engine_generation = playback_controller.audio_engine_generation();
            match position_due(
                playback_controller.status,
                track_sample_rate,
                playback_controller.output_format,
                audio_engine_generation,
                position_generation_threshold,
            ) {
                None => PlaybackReaction::Nothing,
                Some((rate, output)) => PlaybackReaction::Progressed(
                    PlaybackProgress {
                        samples_played: playback_controller.current_track_samples_played(),
                        track_sample_rate: rate,
                        output,
                    },
                ),
            }
        },
    }
}

} // verus!
