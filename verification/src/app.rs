//! The application's library state: the tracks it shows and whether a scan of
//! music directories is under way.

use vstd::prelude::*;

use crate::error::AppError;
use crate::track::Track;

verus! {

/// What the application is doing with the library.
#[derive(Clone, Copy, Debug, PartialEq, Eq, Structural)]
pub enum AppStatus {
    Idle,
    AddingTracks,
    FinishedAddingTracks,
}

/// Messages about the library: requests to (re)load or scan, and their results.
pub enum LibraryMessage {
    /// Read the tracks from the database again.
    LoadTracks,
    /// The tracks read from the database, or why they could not be read.
    LoadedTracks(Result<Vec<Track>, AppError>),
    /// Scan these directories for music files (`None` when the user picked none).
    ScanDirectory(Option<Vec<String>>),
    /// The scan is over.
    ScannedDirectory(Result<(), AppError>),
}

/// What the application has to do after a library message.
#[derive(Debug)]
pub enum LibraryAction {
    Nothing,
    /// Read the tracks from the database and report them with `LoadedTracks`.
    LoadTracks,
    /// Scan these directories and report the end with `ScannedDirectory`.
    ScanDirectories(Vec<String>),
    /// Log this failure.
    Failed(AppError),
}

/// How `Library::update` takes in `message`, going from the status and tracks
/// `old_*` to `new_*` and asking for `action`.
pub open spec fn library_updated(
    old_status: AppStatus,
    old_tracks: Seq<Track>,
    message: LibraryMessage,
    new_status: AppStatus,
    new_tracks: Seq<Track>,
    action: LibraryAction,
) -> bool {
    match message {
        LibraryMessage::LoadTracks => {
            &&& action is LoadTracks
            &&& new_status == old_status
            &&& new_tracks == old_tracks
        },
        LibraryMessage::LoadedTracks(Ok(tracks)) => {
            &&& action is Nothing
            &&& new_status == old_status
            &&& new_tracks == tracks@
        },
        LibraryMessage::LoadedTracks(Err(error)) => {
            &&& action == LibraryAction::Failed(error)
            &&& new_status == old_status
            &&& new_tracks == old_tracks
        },
        LibraryMessage::ScanDirectory(Some(directories)) => {
            &&& action matches LibraryAction::ScanDirectories(chosen) && chosen@ == directories@
            &&& new_status == AppStatus::AddingTracks
            &&& new_tracks == old_tracks
        },
        LibraryMessage::ScanDirectory(None) => {
            &&& action is Nothing
            &&& new_status == old_status
            &&& new_tracks == old_tracks
        },
        LibraryMessage::ScannedDirectory(scanned) => {
            &&& (scanned is Ok ==> action is LoadTracks)
            &&& (scanned is Err ==> action is Nothing)
            &&& new_status == AppStatus::FinishedAddingTracks
            &&& new_tracks == old_tracks
        },
    }
}

/// A scan that succeeds ends with the library reloaded: choosing directories starts
/// the scan of exactly those directories, its successful end asks for the tracks,
/// and the tracks then loaded are the ones shown, with the scan marked finished.
pub proof fn lemma_successful_scan_reloads(
    status: AppStatus,
    tracks: Seq<Track>,
    directories: Vec<String>,
    loaded: Vec<Track>,
    scanning: (AppStatus, Seq<Track>, LibraryAction),
    scanned: (AppStatus, Seq<Track>, LibraryAction),
    reloaded: (AppStatus, Seq<Track>, LibraryAction),
)
    requires
        library_updated(
            status,
            tracks,
            LibraryMessage::ScanDirectory(Some(directories)),
            scanning.0,
            scanning.1,
            scanning.2,
        ),
        library_updated(
            scanning.0,
            scanning.1,
            LibraryMessage::ScannedDirectory(Ok(())),
            scanned.0,
            scanned.1,
            scanned.2,
        ),
        library_updated(
            scanned.0,
            scanned.1,
            LibraryMessage::LoadedTracks(Ok(loaded)),
            reloaded.0,
            reloaded.1,
            reloaded.2,
        ),
    ensures
        scanning.2 matches LibraryAction::ScanDirectories(chosen) && chosen@ == directories@,
        scanning.0 == AppStatus::AddingTracks,
        scanned.2 is LoadTracks,
        reloaded.2 is Nothing,
        reloaded.0 == AppStatus::FinishedAddingTracks,
        reloaded.1 == loaded@,
{
}

/// The library as the application shows it.
pub struct Library {
    pub status: AppStatus,
    pub tracks: Vec<Track>,
}

impl Library {
    /// An idle library without tracks; the application asks for `LoadTracks` first.
    pub fn new() -> (library: Self)
        ensures
            library.status == AppStatus::Idle,
            library.tracks@.len() == 0,
    {
        Library { status: AppStatus::Idle, tracks: Vec::new() }
    }

    /// Takes in a library message. Loading asks for the tracks; loaded tracks
    /// replace the shown ones; a scan of chosen directories marks the library as
    /// adding tracks; the end of a scan marks it finished and, when the scan
    /// succeeded, asks for the tracks again.
    pub fn update(&mut self, message: LibraryMessage) -> (action: LibraryAction)
        ensures
            library_updated(
                old(self).status,
                old(self).tracks@,
                message,
                final(self).status,
                final(self).tracks@,
                action,
            ),
    {
        match message {
            LibraryMessage::LoadTracks => LibraryAction::LoadTracks,
            LibraryMessage::LoadedTracks(Ok(tracks)) => {
                self.tracks = tracks;
                LibraryAction::Nothing
            },
            LibraryMessage::LoadedTracks(Err(error)) => LibraryAction::Failed(error),
            LibraryMessage::ScanDirectory(Some(directories)) => {
                self.status = AppStatus::AddingTracks;
                LibraryAction::ScanDirectories(directories)
            },
            LibraryMessage::ScanDirectory(None) => LibraryAction::Nothing,
            LibraryMessage::ScannedDirectory(scanned) => {
                self.status = AppStatus::FinishedAddingTracks;
                match scanned {
                    Ok(()) => LibraryAction::LoadTracks,
                    Err(_) => LibraryAction::Nothing,
                }
            },
        }
    }
}

} // verus!
