//! What the user interface asks of playback, and how the application answers.

use vstd::prelude::*;

use crate::error::AppError;
use crate::playback::pipeline::thread::AudioPipelineThreadCommand;
use crate::playback::{
    stepped, PlaybackController, PlaybackControllerError, PlaybackControllerStatus,
    PlaybackControllerView,
};
use crate::track::{Track, TrackId};

verus! {

/// Results of user interaction that other parts of the application act on.
pub enum Outcome {
    Playback(PlaybackOutcome),
}

/// Playback requests from the user interface.
pub enum PlaybackOutcome {
    Resume,
    Pause,
    Stop,
    Play(TrackId),
    Seek { timestamp: u64, post_seek_status: PlaybackControllerStatus },
}

/// Wraps a controller failure.
pub fn controller_error(error: PlaybackControllerError) -> (converted: AppError)
    ensures
        converted == AppError::PlaybackController(error),
{
    AppError::PlaybackController(error)
}

/// The first track of `tracks` with identifier `track_id`, if there is one.
pub open spec fn spec_first_track(tracks: Seq<Track>, track_id: TrackId) -> Option<Track> {
    if exists|i: int| 0 <= i < tracks.len() && tracks[i].id == track_id {
        let first = choose|i: int|
            0 <= i < tracks.len() && tracks[i].id == track_id && forall|j: int|
                0 <= j < i ==> tracks[j].id != track_id;
        Some(tracks[first])
    } else {
        None
    }
}

/// What looking `track_id` up in `tracks` gives: the first track with that
/// identifier, or `TrackNotFound` naming the identifier.
pub open spec fn spec_find_track(tracks: Seq<Track>, track_id: TrackId) -> Result<Track, AppError> {
    match spec_first_track(tracks, track_id) {
        Some(track) => Ok(track),
        None => Err(AppError::TrackNotFound { id: Some(track_id), path: None }),
    }
}

/// Looks up the track to play; fails with `TrackNotFound` for an unknown identifier.
pub fn find_track(tracks: &Vec<Track>, track_id: TrackId) -> (found: Result<Track, AppError>)
    ensures
        found == spec_find_track(tracks@, track_id),
{
    let mut index: usize = 0;
    while index < tracks.len()
        invariant
            index <= tracks@.len(),
            forall|j: int| 0 <= j < index ==> tracks@[j].id != track_id,
        decreases tracks@.len() - index,
    {
        if tracks[index].id == track_id {
            proof {
                let all = tracks@;
                assert(0 <= index < all.len() && all[index as int].id == track_id && forall|j: int|
                    0 <= j < index ==> all[j].id != track_id);
                let first = choose|i: int|
                    0 <= i < all.len() && all[i].id == track_id && forall|j: int|
                        0 <= j < i ==> all[j].id != track_id;
                assert(first == index);
            }
            return Ok(tracks[index].duplicate());
        }
        index = index + 1;
    }
    Err(AppError::TrackNotFound { id: Some(track_id), path: None })
}

/// A controller result as the application reports it: `Ok(false)` (no track was
/// started), or the failure.
pub open spec fn app_result(result: Result<(), PlaybackControllerError>) -> Result<bool, AppError> {
    match result {
        Ok(()) => Ok(false),
        Err(error) => Err(AppError::PlaybackController(error)),
    }
}

/// What starting `track` does, from the controller view `old` and current track
/// `old_current` to `new` and `new_current`, with `result`: the controller plays
/// it (see `stepped`), and it becomes the current track exactly when that
/// succeeded, which comes back as `Ok(true)`.
pub open spec fn started_playing(
    old: PlaybackControllerView,
    new: PlaybackControllerView,
    old_current: Option<Track>,
    new_current: Option<Track>,
    track: Track,
    result: Result<bool, AppError>,
) -> bool {
    exists|played: Result<(), PlaybackControllerError>|
        {
            &&& stepped(
                old,
                new,
                played,
                false,
                PlaybackControllerStatus::Playing,
                AudioPipelineThreadCommand::Play(track),
            )
            &&& match played {
                Ok(()) => result == Ok::<bool, AppError>(true) && new_current == Some(track),
                Err(error) => result == Err::<bool, AppError>(AppError::PlaybackController(error))
                    && new_current == old_current,
            }
        }
}

/// Plays `track` and makes it the current track (see `started_playing`). On
/// failure the current track stays what it was.
pub fn start_playing(
    playback_controller: &mut PlaybackController,
    current_playing_track: &mut Option<Track>,
    track: Track,
) -> (result: Result<bool, AppError>)
    ensures
        started_playing(
            old(playback_controller)@,
            final(playback_controller)@,
            *old(current_playing_track),
            *final(current_playing_track),
            track,
            result,
        ),
{
    let ghost started = track;
    match playback_controller.play(track.duplicate()) {
        Ok(()) => {
            *current_playing_track = Some(track);
            let result = Ok(true);
            assert(started_playing(
                old(playback_controller)@,
                playback_controller@,
                *old(current_playing_track),
                *current_playing_track,
                started,
                result,
            ));
            result
        },
        Err(error) => {
            let result = Err(controller_error(error));
            assert(started_playing(
                old(playback_controller)@,
                playback_controller@,
                *old(current_playing_track),
                *current_playing_track,
                started,
                result,
            ));
            result
        },
    }
}

/// How `handle_playback_outcome` carries out `outcome` on the library `tracks`,
/// going from the controller view `old` and current track `old_current` to `new`
/// and `new_current` with `result`:
/// - `Play(id)`: an identifier the library does not hold fails with
///   `TrackNotFound` and nothing happens; otherwise the first track with it is
///   started (see `started_playing`).
/// - `Resume`, `Pause`, `Stop`: the controller steps (see `stepped`) with that very
///   command.
/// - `Seek { timestamp, post_seek_status }`: `Seek(timestamp)` is sent; if the
///   channel refuses it, that failure comes back; otherwise the controller resumes
///   or pauses as `post_seek_status` says.
/// Apart from a started track, the current track stays.
pub open spec fn playback_outcome_handled(
    old: PlaybackControllerView,
    new: PlaybackControllerView,
    tracks: Seq<Track>,
    old_current: Option<Track>,
    new_current: Option<Track>,
    outcome: PlaybackOutcome,
    result: Result<bool, AppError>,
) -> bool {
    match outcome {
        PlaybackOutcome::Play(track_id) => match spec_find_track(tracks, track_id) {
            Err(error) => {
                &&& result == Err::<bool, AppError>(error)
                &&& new == old
                &&& new_current == old_current
            },
            Ok(track) => started_playing(old, new, old_current, new_current, track, result),
        },
        PlaybackOutcome::Resume => new_current == old_current && exists|
            stepped_result: Result<(), PlaybackControllerError>,
        |
            stepped(
                old,
                new,
                stepped_result,
                false,
                PlaybackControllerStatus::Playing,
                AudioPipelineThreadCommand::Resume,
            ) && result == app_result(stepped_result),
        PlaybackOutcome::Pause => new_current == old_current && exists|
            stepped_result: Result<(), PlaybackControllerError>,
        |
            stepped(
                old,
                new,
                stepped_result,
                true,
                PlaybackControllerStatus::Stopped,
                AudioPipelineThreadCommand::Pause,
            ) && result == app_result(stepped_result),
        PlaybackOutcome::Stop => new_current == old_current && exists|
            stepped_result: Result<(), PlaybackControllerError>,
        |
            stepped(
                old,
                new,
                stepped_result,
                true,
                PlaybackControllerStatus::Stopped,
                AudioPipelineThreadCommand::Stop,
            ) && result == app_result(stepped_result),
        PlaybackOutcome::Seek { timestamp, post_seek_status } => {
            let sought = PlaybackControllerView {
                sent: old.sent.push(AudioPipelineThreadCommand::Seek(timestamp)),
                ..old
            };
            &&& new_current == old_current
            &&& {
                ||| (result matches Err(AppError::PlaybackController(
                    PlaybackControllerError::AudioPipelineCommandSendFailed(_),
                )) && new == sought)
                ||| exists|stepped_result: Result<(), PlaybackControllerError>|
                    stepped(
                        sought,
                        new,
                        stepped_result,
                        post_seek_status == PlaybackControllerStatus::Stopped,
                        post_seek_status,
                        if post_seek_status == PlaybackControllerStatus::Playing {
                            AudioPipelineThreadCommand::Resume
                        } else {
                            AudioPipelineThreadCommand::Pause
                        },
                    ) && result == app_result(stepped_result)
            }
        },
    }
}

/// Carries out a playback request (see `playback_outcome_handled`). `Ok(true)`
/// means a track was started: the panes are then told that playing a track was
/// attempted.
pub fn handle_playback_outcome(
    playback_controller: &mut PlaybackController,
    tracks: &Vec<Track>,
    current_playing_track: &mut Option<Track>,
    outcome: PlaybackOutcome,
) -> (result: Result<bool, AppError>)
    ensures
        playback_outcome_handled(
            old(playback_controller)@,
            final(playback_controller)@,
            tracks@,
            *old(current_playing_track),
            *final(current_playing_track),
            outcome,
            result,
        ),
{
    let stepped_result = match outcome {
        PlaybackOutcome::Play(track_id) => {
            let track = match find_track(tracks, track_id) {
                Ok(track) => track,
                Err(error) => {
                    return Err(error);
                },
            };
            return start_playing(playback_controller, current_playing_track, track);
        },
        PlaybackOutcome::Resume => playback_controller.resume(),
        PlaybackOutcome::Stop => playback_controller.stop(),
        PlaybackOutcome::Pause => playback_controller.pause(),
        PlaybackOutcome::Seek { timestamp, post_seek_status } => {
            if let Err(error) = playback_controller.seek(timestamp) {
                return Err(controller_error(error));
            }
            match post_seek_status {
                PlaybackControllerStatus::Playing => playback_controller.resume(),
                PlaybackControllerStatus::Stopped => playback_controller.pause(),
            }
        },
    };
    let result = match stepped_result {
        Ok(()) => Ok(false),
        Err(error) => Err(controller_error(error)),
    };
    assert(result == app_result(stepped_result));
    result
}

/// Carries out an outcome of user interaction: a playback request is handled by
/// `handle_playback_outcome`. The application only reports a failure.
pub fn handle_outcome(
    playback_controller: &mut PlaybackController,
    tracks: &Vec<Track>,
    current_playing_track: &mut Option<Track>,
    outcome: Outcome,
) -> (result: Result<bool, AppError>)
    ensures
        match outcome {
            Outcome::Playback(request) => playback_outcome_handled(
                old(playback_controller)@,
                final(playback_controller)@,
                tracks@,
                *old(current_playing_track),
                *final(current_playing_track),
                request,
                result,
            ),
        },
{
    match outcome {
        Outcome::Playback(request) => handle_playback_outcome(
            playback_controller,
            tracks,
            current_playing_track,
            request,
        ),
    }
}

/// The track after `current` in the displayed order: the one following the first
/// place `current` is displayed at, if there is such a place and a track after it.
pub open spec fn spec_next_track_id(displayed: Seq<TrackId>, current: Option<TrackId>) -> Option<TrackId> {
    match current {
        None => None,
        Some(current) => if exists|i: int| 0 <= i < displayed.len() && displayed[i] == current {
            let first = choose|i: int|
                0 <= i < displayed.len() && displayed[i] == current && forall|j: int|
                    0 <= j < i ==> displayed[j] != current;
            if first + 1 < displayed.len() {
                Some(displayed[first + 1])
            } else {
                None
            }
        } else {
            None
        },
    }
}

/// The track to play when the current one finishes: the next displayed track.
pub fn next_track_id(displayed_track_ids: &Vec<TrackId>, current: Option<TrackId>) -> (next: Option<TrackId>)
    ensures
        next == spec_next_track_id(displayed_track_ids@, current),
{
    let current_id = match current {
        Some(current_id) => current_id,
        None => {
            return None;
        },
    };
    let mut index: usize = 0;
    while index < displayed_track_ids.len()
        invariant
            index <= displayed_track_ids@.len(),
            forall|j: int| 0 <= j < index ==> displayed_track_ids@[j] != current_id,
            current == Some(current_id),
        decreases displayed_track_ids@.len() - index,
    {
        if displayed_track_ids[index] == current_id {
            proof {
                let displayed = displayed_track_ids@;
                assert(0 <= index < displayed.len() && displayed[index as int] == current_id && forall|j: int|
                    0 <= j < index ==> displayed[j] != current_id);
                let first = choose|i: int|
                    0 <= i < displayed.len() && displayed[i] == current_id && forall|j: int|
                        0 <= j < i ==> displayed[j] != current_id;
                assert(first == index);
            }
            if index + 1 < displayed_track_ids.len() {
                return Some(displayed_track_ids[index + 1]);
            }
            return None;
        }
        index = index + 1;
    }
    None
}

} // verus!
