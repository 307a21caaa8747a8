//! The output engine: its status and the callback that hands samples to the device.

pub mod thread;

use std::sync::Arc;
use std::sync::atomic::AtomicBool;
use vstd::prelude::*;
use vstd::string::StringExecFns;

verus! {

/// Failures of the output engine. Errors that the audio host reports carry its
/// message.
#[derive(Clone, Debug, PartialEq, Eq)]
pub enum PlaybackEngineError {
    OutputDeviceNotFound,
    DefaultStreamConfiguration(String),
    StreamBuildFailed(String),
    StreamPauseFailed(String),
    StreamPlayFailed(String),
    MissingStream,
    EmptyBufferError(String),
    UnsupportedSampleFormat,
}

impl PlaybackEngineError {
    /// The error's message.
    pub open spec fn message_text(self) -> Seq<char> {
        match self {
            PlaybackEngineError::OutputDeviceNotFound => "output device not found"@,
            PlaybackEngineError::DefaultStreamConfiguration(message) => "default stream configuration error: "@
                + message@,
            PlaybackEngineError::StreamBuildFailed(message) => "build stream failed: "@ + message@,
            PlaybackEngineError::StreamPauseFailed(message) => "failed to pause stream: "@ + message@,
            PlaybackEngineError::StreamPlayFailed(message) => "failed to play stream: "@ + message@,
            PlaybackEngineError::MissingStream => "stream hasn't been built"@,
            PlaybackEngineError::EmptyBufferError(message) => "failed to consume next samples: "@
                + message@,
            PlaybackEngineError::UnsupportedSampleFormat => "unsupported output sample format"@,
        }
    }

    /// See `message_text`.
    pub fn message(&self) -> (text: String)
        ensures
            text@ == self.message_text(),
    {
        match self {
            PlaybackEngineError::OutputDeviceNotFound => String::from_str("output device not found"),
            PlaybackEngineError::DefaultStreamConfiguration(message) => String::from_str(
                "default stream configuration error: ",
            ).concat(message.as_str()),
            PlaybackEngineError::StreamBuildFailed(message) => String::from_str(
                "build stream failed: ",
            ).concat(message.as_str()),
            PlaybackEngineError::StreamPauseFailed(message) => String::from_str(
                "failed to pause stream: ",
            ).concat(message.as_str()),
            PlaybackEngineError::StreamPlayFailed(message) => String::from_str(
                "failed to play stream: ",
            ).concat(message.as_str()),
            PlaybackEngineError::MissingStream => String::from_str("stream hasn't been built"),
            PlaybackEngineError::EmptyBufferError(message) => String::from_str(
                "failed to consume next samples: ",
            ).concat(message.as_str()),
            PlaybackEngineError::UnsupportedSampleFormat => String::from_str(
                "unsupported output sample format",
            ),
        }
    }
}

/// Whether the engine plays queued samples or outputs silence.
#[derive(Clone, Copy, Debug, PartialEq, Eq, Structural)]
pub enum PlaybackEngineStatus {
    Playing,
    Paused,
}

/// The abstract state of an engine: whether an output stream has been built, its
/// status, and the values that the pause flag shared with the output callback has
/// held, oldest first (`true` when the engine was made, then one per write).
#[verifier::ext_equal]
pub struct AudioEngineView {
    pub has_stream: bool,
    pub status: PlaybackEngineStatus,
    pub paused_flag: Seq<bool>,
}

/// `engine` after its status was set to `status`: a change of status is written to
/// the pause flag (`true` for paused); setting the status it has writes nothing.
pub open spec fn with_engine_status(engine: AudioEngineView, status: PlaybackEngineStatus) -> AudioEngineView {
    if engine.status == status {
        engine
    } else {
        AudioEngineView {
            status,
            paused_flag: engine.paused_flag.push(status == PlaybackEngineStatus::Paused),
            ..engine
        }
    }
}

/// The output engine's control state. The device stream itself is owned by the
/// application; the engine records that one exists and shares the pause flag with
/// the output callback.
pub struct AudioEngine {
    has_stream: bool,
    paused: Arc<AtomicBool>,
    status: PlaybackEngineStatus,
    paused_flag_values: Ghost<Seq<bool>>,
}

impl View for AudioEngine {
    type V = AudioEngineView;

    closed spec fn view(&self) -> AudioEngineView {
        AudioEngineView {
            has_stream: self.has_stream,
            status: self.status,
            paused_flag: self.paused_flag_values@,
        }
    }
}

impl AudioEngine {
    /// The pause flag shared with the output callback.
    pub closed spec fn spec_paused_flag(&self) -> Arc<AtomicBool> {
        self.paused
    }

    /// A new engine has no stream and is paused.
    pub fn new() -> (engine: Self)
        ensures
            !engine@.has_stream,
            engine@.status == PlaybackEngineStatus::Paused,
            engine@.paused_flag == seq![true],
    {
        AudioEngine {
            has_stream: false,
            paused: Arc::new(AtomicBool::new(true)),
            status: PlaybackEngineStatus::Paused,
            paused_flag_values: Ghost(Seq::empty().push(true)),
        }
    }

    /// The pause flag that the output callback reads.
    pub fn paused_flag(&self) -> (flag: Arc<AtomicBool>)
        ensures
            flag == self.spec_paused_flag(),
    {
        crate::sync::arc_clone(&self.paused)
    }

    /// Records that an output stream has been built for this engine.
    pub fn attach_stream(&mut self)
        ensures
            final(self)@ == (AudioEngineView { has_stream: true, ..old(self)@ }),
    {
        self.has_stream = true;
    }

    /// Sets the status; the shared pause flag is written only when it changes.
    fn set_status(&mut self, status: PlaybackEngineStatus)
        ensures
            final(self)@ == with_engine_status(old(self)@, status),
    {
        if self.status == status {
            return;
        }
        self.status = status;
        let paused = match self.status {
            PlaybackEngineStatus::Paused => true,
            PlaybackEngineStatus::Playing => false,
        };
        self.paused.store(paused, std::sync::atomic::Ordering::Relaxed);
        proof {
            self.paused_flag_values = Ghost(self.paused_flag_values@.push(paused));
        }
    }

    /// Pauses output. Fails with `MissingStream`, changing nothing, when no stream
    /// has been built.
    pub fn pause(&mut self) -> (result: Result<(), PlaybackEngineError>)
        ensures
            result is Ok <==> old(self)@.has_stream,
            result is Err ==> result == Err::<(), _>(PlaybackEngineError::MissingStream)
                && final(self)@ == old(self)@,
            result is Ok ==> final(self)@ == with_engine_status(old(self)@, PlaybackEngineStatus::Paused),
    {
        if !self.has_stream {
            return Err(PlaybackEngineError::MissingStream);
        }
        self.set_status(PlaybackEngineStatus::Paused);
        Ok(())
    }

    /// Starts output. Fails with `MissingStream`, changing nothing, when no stream
    /// has been built.
    pub fn play(&mut self) -> (result: Result<(), PlaybackEngineError>)
        ensures
            result is Ok <==> old(self)@.has_stream,
            result is Err ==> result == Err::<(), _>(PlaybackEngineError::MissingStream)
                && final(self)@ == old(self)@,
            result is Ok ==> final(self)@ == with_engine_status(old(self)@, PlaybackEngineStatus::Playing),
    {
        if !self.has_stream {
            return Err(PlaybackEngineError::MissingStream);
        }
        self.set_status(PlaybackEngineStatus::Playing);
        Ok(())
    }

    /// The current status.
    pub fn status(&self) -> (status: &PlaybackEngineStatus)
        ensures
            *status == self@.status,
    {
        &self.status
    }
}

} // verus!

verus! {

/// How watching the default output device goes on from the device `current` (if one
/// was seen yet) after observing `observed`: a missing device is skipped; the first
/// device seen becomes the current one quietly; a different device becomes the
/// current one and calls for an output change (`change`).
pub open spec fn device_observed(
    current: Option<Seq<char>>,
    observed: Option<Seq<char>>,
    new: Option<Seq<char>>,
    change: bool,
) -> bool {
    match (current, observed) {
        (_, None) => !change && new == current,
        (None, Some(device)) => !change && new == Some(device),
        (Some(known), Some(device)) => change == (known != device) && new == Some(device),
    }
}

/// See `device_observed`.
pub fn observe_default_device(current: &mut Option<String>, observed: Option<String>) -> (change: bool)
    ensures
        device_observed(
            match *old(current) {
                Some(device) => Some(device@),
                None => None,
            },
            match observed {
                Some(device) => Some(device@),
                None => None,
            },
            match *final(current) {
                Some(device) => Some(device@),
                None => None,
            },
            change,
        ),
{
    match observed {
        None => false,
        Some(device) => {
            let change = match current {
                Some(known) => !(*known == device),
                None => false,
            };
            *current = Some(device);
            change
        },
    }
}

} // verus!

verus! {

/// The device recorded after the polls `polls`, oldest first, starting from
/// `initial`: the device of the latest poll that found one, or `initial` when none
/// did.
pub open spec fn last_recorded(initial: Option<Seq<char>>, polls: Seq<Option<Seq<char>>>) -> Option<
    Seq<char>,
>
    decreases polls.len(),
{
    if polls.len() == 0 {
        initial
    } else {
        match polls.last() {
            Some(device) => Some(device),
            None => last_recorded(initial, polls.drop_last()),
        }
    }
}

/// After the first `n` polls of a run of device observations (see
/// `device_observed`), the recorded device is `last_recorded` of those polls.
proof fn lemma_recorded_after_polls(
    recorded: Seq<Option<Seq<char>>>,
    polls: Seq<Option<Seq<char>>>,
    changes: Seq<bool>,
    n: int,
)
    requires
        recorded.len() == polls.len() + 1,
        changes.len() == polls.len(),
        forall|i: int|
            0 <= i < polls.len() ==> #[trigger] device_observed(recorded[i], polls[i], recorded[i + 1], changes[i]),
        0 <= n <= polls.len(),
    ensures
        recorded[n] == last_recorded(recorded[0], polls.take(n)),
    decreases n,
{
    if n > 0 {
        lemma_recorded_after_polls(recorded, polls, changes, n - 1);
        let j = n - 1;
        assert(device_observed(recorded[j], polls[j], recorded[j + 1], changes[j]));
        assert(j + 1 == n);
        assert(polls.take(n).drop_last() =~= polls.take(n - 1));
    } else {
        assert(polls.take(0) =~= Seq::<Option<Seq<char>>>::empty());
    }
}

/// Watching the default device over a run of polls asks for an output change
/// exactly at each poll that finds a device different from the one last recorded;
/// polls that find no device are skipped, and the first device found is recorded
/// without a change.
pub proof fn lemma_device_watch_reports_each_change(
    recorded: Seq<Option<Seq<char>>>,
    polls: Seq<Option<Seq<char>>>,
    changes: Seq<bool>,
)
    requires
        recorded.len() == polls.len() + 1,
        changes.len() == polls.len(),
        forall|i: int|
            0 <= i < polls.len() ==> #[trigger] device_observed(recorded[i], polls[i], recorded[i + 1], changes[i]),
    ensures
        forall|i: int|
            0 <= i <= polls.len() ==> recorded[i] == #[trigger] last_recorded(recorded[0], polls.take(i)),
        forall|i: int|
            0 <= i < polls.len() ==> #[trigger] changes[i] == (polls[i] is Some && last_recorded(
                recorded[0],
                polls.take(i),
            ) is Some && last_recorded(recorded[0], polls.take(i))->0 != polls[i]->0),
{
    assert forall|i: int| 0 <= i <= polls.len() implies recorded[i] == #[trigger] last_recorded(
        recorded[0],
        polls.take(i),
    ) by {
        lemma_recorded_after_polls(recorded, polls, changes, i);
    }
    assert forall|i: int| 0 <= i < polls.len() implies #[trigger] changes[i] == (polls[i] is Some
        && last_recorded(recorded[0], polls.take(i)) is Some && last_recorded(recorded[0], polls.take(i))->0
        != polls[i]->0) by {
        lemma_recorded_after_polls(recorded, polls, changes, i);
        assert(device_observed(recorded[i], polls[i], recorded[i + 1], changes[i]));
    }
}

} // verus!
