//! The application's errors.

use vstd::prelude::*;
use vstd::string::StringExecFns;

use crate::log::{chain_with, signed_decimal, signed_decimal_text, texts};

use crate::playback::PlaybackControllerError;
use crate::playback::engine::PlaybackEngineError;
use crate::playback::pipeline::AudioPipelineError;
use crate::track::TrackId;

verus! {

/// Failures across the application. Errors of the database, the file system and
/// the runtime carry their message.
#[derive(Clone, Debug, PartialEq, Eq)]
pub enum AppError {
    Database(String),
    DatabaseMigration(String),
    DatabaseDowngradeDetected { current: i64, expected: i64 },
    DatabaseQueryGeneration(String),
    TrackNotFound { id: Option<TrackId>, path: Option<String> },
    PlaylistNotFound { name: String },
    Io(String),
    TrackPropertiesRead(String),
    ThreadJoinFailed(String),
    AudioPipeline(AudioPipelineError),
    PlaybackEngine(PlaybackEngineError),
    PlaybackController(PlaybackControllerError),
}

/// Prefixes `message` with `prefix`.
fn prefixed(prefix: &str, message: &str) -> (text: String)
    ensures
        text@ == prefix@ + message@,
{
    String::from_str(prefix).concat(message)
}

impl AppError {
    /// What a missing track is named by: its path when known, else its identifier.
    pub open spec fn missing_track_text(id: Option<TrackId>, path: Option<String>) -> Seq<char> {
        match path {
            Some(path) => path@,
            None => match id {
                Some(id) => signed_decimal(id as int),
                None => Seq::empty(),
            },
        }
    }

    /// The error's message, with the message of the error it wraps.
    pub open spec fn message_text(self) -> Seq<char> {
        match self {
            AppError::Database(message) => "database error - "@ + message@,
            AppError::DatabaseMigration(message) => "database migration error - "@ + message@,
            AppError::DatabaseDowngradeDetected { current, expected } => "app was downgraded but database is already at version "@
                + signed_decimal(current as int) + " (app expects "@ + signed_decimal(expected as int)
                + "), please update the app."@,
            AppError::DatabaseQueryGeneration(message) => "database query generation error - "@ + message@,
            AppError::TrackNotFound { id, path } => "track not found: "@ + AppError::missing_track_text(
                id,
                path,
            ),
            AppError::PlaylistNotFound { name } => "playlist not found: "@ + name@,
            AppError::Io(message) => "io error - "@ + message@,
            AppError::TrackPropertiesRead(message) => "track read error - "@ + message@,
            AppError::ThreadJoinFailed(message) => "thread join error - "@ + message@,
            AppError::AudioPipeline(error) => "audio pipeline error - "@ + error.message_text(),
            AppError::PlaybackEngine(error) => "playback error - "@ + error.message_text(),
            AppError::PlaybackController(error) => "playback controller error - "@ + error.message_text(),
        }
    }

    /// The messages of the error and of the chain of errors that caused it, from
    /// the outermost inward.
    pub open spec fn chain_texts(self) -> Seq<Seq<char>> {
        match self {
            AppError::TrackPropertiesRead(message) => seq![self.message_text(), message@],
            AppError::AudioPipeline(error) => seq![self.message_text()] + error.chain_texts(),
            AppError::PlaybackEngine(error) => seq![self.message_text(), error.message_text()],
            AppError::PlaybackController(error) => seq![self.message_text()] + error.chain_texts(),
            _ => seq![self.message_text()],
        }
    }

    /// See `chain_texts`.
    pub fn chain_messages(&self) -> (messages: Vec<String>)
        ensures
            texts(messages@) =~= self.chain_texts(),
    {
        let causes = match self {
            AppError::TrackPropertiesRead(message) => vec![message.clone()],
            AppError::AudioPipeline(error) => error.chain_messages(),
            AppError::PlaybackEngine(error) => vec![error.message()],
            AppError::PlaybackController(error) => error.chain_messages(),
            _ => Vec::new(),
        };
        chain_with(self.message(), causes)
    }

    /// See `message_text`.
    pub fn message(&self) -> (text: String)
        ensures
            text@ == self.message_text(),
    {
        match self {
            AppError::Database(message) => prefixed("database error - ", message.as_str()),
            AppError::DatabaseMigration(message) => prefixed("database migration error - ", message.as_str()),
            AppError::DatabaseDowngradeDetected { current, expected } => {
                let current_text = signed_decimal_text(*current);
                let expected_text = signed_decimal_text(*expected);
                String::from_str("app was downgraded but database is already at version ").concat(
                    current_text.as_str(),
                ).concat(" (app expects ").concat(expected_text.as_str()).concat(
                    "), please update the app.",
                )
            },
            AppError::DatabaseQueryGeneration(message) => prefixed(
                "database query generation error - ",
                message.as_str(),
            ),
            AppError::TrackNotFound { id, path } => {
                let named = match path {
                    Some(path) => path.clone(),
                    None => match id {
                        Some(id) => signed_decimal_text(*id),
                        None => String::new(),
                    },
                };
                prefixed("track not found: ", named.as_str())
            },
            AppError::PlaylistNotFound { name } => prefixed("playlist not found: ", name.as_str()),
            AppError::Io(message) => prefixed("io error - ", message.as_str()),
            AppError::TrackPropertiesRead(message) => prefixed("track read error - ", message.as_str()),
            AppError::ThreadJoinFailed(message) => prefixed("thread join error - ", message.as_str()),
            AppError::AudioPipeline(error) => {
                let inner = error.message();
                prefixed("audio pipeline error - ", inner.as_str())
            },
            AppError::PlaybackEngine(error) => {
                let inner = error.message();
                prefixed("playback error - ", inner.as_str())
            },
            AppError::PlaybackController(error) => {
                let inner = error.message();
                prefixed("playback controller error - ", inner.as_str())
            },
        }
    }
}

} // verus!
