//! Receiving the controller's commands on the pipeline thread.

use vstd::prelude::*;
use vstd::string::StringExecFns;

use crate::log::{chain_with, texts};

use crate::playback::pipeline::{AudioPipelineStatus, blocks_for_commands, spec_blocks_for_commands};
use crate::playback::pipeline::thread::AudioPipelineThreadCommand;

verus! {

/// Failures to receive a command; they carry the channel's message.
#[derive(Clone, Debug, PartialEq, Eq)]
pub enum AudioPipelineCommandReceiverError {
    /// Waiting for a command failed: the controller is gone.
    ReceiveFailed(String),
    /// Polling for a command failed: the controller is gone.
    ReceiveAttemptFailed(String),
}

impl AudioPipelineCommandReceiverError {
    /// The error's message.
    pub open spec fn message_text(self) -> Seq<char> {
        match self {
            AudioPipelineCommandReceiverError::ReceiveFailed(message) => "Failed to receive audio pipeline command: "@
                + message@,
            AudioPipelineCommandReceiverError::ReceiveAttemptFailed(message) => "Failed attempt to receive audio pipeline command: "@
                + message@,
        }
    }

    /// The messages of the error and of the channel error that caused it.
    pub open spec fn chain_texts(self) -> Seq<Seq<char>> {
        match self {
            AudioPipelineCommandReceiverError::ReceiveFailed(message) => seq![self.message_text(), message@],
            AudioPipelineCommandReceiverError::ReceiveAttemptFailed(message) => seq![self.message_text(), message@],
        }
    }

    /// See `chain_texts`.
    pub fn chain_messages(&self) -> (messages: Vec<String>)
        ensures
            texts(messages@) =~= self.chain_texts(),
    {
        let cause = match self {
            AudioPipelineCommandReceiverError::ReceiveFailed(message) => message.clone(),
            AudioPipelineCommandReceiverError::ReceiveAttemptFailed(message) => message.clone(),
        };
        chain_with(self.message(), vec![cause])
    }

    /// See `message_text`.
    pub fn message(&self) -> (text: String)
        ensures
            text@ == self.message_text(),
    {
        match self {
            AudioPipelineCommandReceiverError::ReceiveFailed(message) => String::from_str(
                "Failed to receive audio pipeline command: ",
            ).concat(message.as_str()),
            AudioPipelineCommandReceiverError::ReceiveAttemptFailed(message) => String::from_str(
                "Failed attempt to receive audio pipeline command: ",
            ).concat(message.as_str()),
        }
    }
}

/// What polling the command channel found.
pub enum CommandPoll {
    Received(AudioPipelineThreadCommand),
    Empty,
    Disconnected(String),
}

/// Waits for the next command (`std::sync::mpsc::Receiver::recv`).
///
/// Trusted contract: none on the result; it fails, with the channel's message, once
/// every sender is gone, and what arrives depends on the other thread.
#[verifier::external_body]
pub(crate) fn receive_command(
    receiver: &std::sync::mpsc::Receiver<AudioPipelineThreadCommand>,
) -> (received: Result<AudioPipelineThreadCommand, String>) {
    match receiver.recv() {
        Ok(command) => Ok(command),
        Err(error) => Err(error.to_string()),
    }
}

/// Takes the next command if one is waiting (`std::sync::mpsc::Receiver::try_recv`).
///
/// Trusted contract: none on the result; whether a command waits, or the senders are
/// gone, depends on the other thread.
#[verifier::external_body]
pub(crate) fn poll_command(receiver: &std::sync::mpsc::Receiver<AudioPipelineThreadCommand>) -> (polled:
    CommandPoll) {
    match receiver.try_recv() {
        Ok(command) => CommandPoll::Received(command),
        Err(std::sync::mpsc::TryRecvError::Empty) => CommandPoll::Empty,
        Err(error) => CommandPoll::Disconnected(error.to_string()),
    }
}

/// What the pipeline receives from a poll of the channel that found `poll`: the
/// command that was waiting, nothing when none was, or the channel's failure.
pub open spec fn received_from_poll(poll: CommandPoll) -> Result<
    Option<AudioPipelineThreadCommand>,
    AudioPipelineCommandReceiverError,
> {
    match poll {
        CommandPoll::Received(command) => Ok(Some(command)),
        CommandPoll::Empty => Ok(None),
        CommandPoll::Disconnected(message) => Err(
            AudioPipelineCommandReceiverError::ReceiveAttemptFailed(message),
        ),
    }
}

/// What the pipeline receives after waiting on the channel with outcome `waited`:
/// the command that came, or the channel's failure.
pub open spec fn received_from_wait(waited: Result<AudioPipelineThreadCommand, String>) -> Result<
    Option<AudioPipelineThreadCommand>,
    AudioPipelineCommandReceiverError,
> {
    match waited {
        Ok(command) => Ok(Some(command)),
        Err(message) => Err(AudioPipelineCommandReceiverError::ReceiveFailed(message)),
    }
}

/// See `received_from_poll`.
pub fn take_polled(poll: CommandPoll) -> (received: Result<
    Option<AudioPipelineThreadCommand>,
    AudioPipelineCommandReceiverError,
>)
    ensures
        received == received_from_poll(poll),
{
    match poll {
        CommandPoll::Received(command) => Ok(Some(command)),
        CommandPoll::Empty => Ok(None),
        CommandPoll::Disconnected(message) => Err(
            AudioPipelineCommandReceiverError::ReceiveAttemptFailed(message),
        ),
    }
}

/// See `received_from_wait`.
pub fn take_waited(waited: Result<AudioPipelineThreadCommand, String>) -> (received: Result<
    Option<AudioPipelineThreadCommand>,
    AudioPipelineCommandReceiverError,
>)
    ensures
        received == received_from_wait(waited),
{
    match waited {
        Ok(command) => Ok(Some(command)),
        Err(message) => Err(AudioPipelineCommandReceiverError::ReceiveFailed(message)),
    }
}

/// No command is lost or changed on its way from the channel to the pipeline: a
/// poll hands over exactly the command it took from the channel, and gives nothing
/// exactly when the channel was empty; waiting hands over exactly the command that
/// came, and never gives nothing.
pub proof fn lemma_received_commands_pass_through(
    poll: CommandPoll,
    waited: Result<AudioPipelineThreadCommand, String>,
    command: AudioPipelineThreadCommand,
)
    ensures
        received_from_poll(poll) == Ok::<Option<AudioPipelineThreadCommand>, AudioPipelineCommandReceiverError>(
            Some(command),
        ) <==> poll == CommandPoll::Received(command),
        received_from_poll(poll) == Ok::<Option<AudioPipelineThreadCommand>, AudioPipelineCommandReceiverError>(
            None,
        ) <==> poll is Empty,
        received_from_poll(poll) is Err <==> poll is Disconnected,
        received_from_wait(waited) == Ok::<Option<AudioPipelineThreadCommand>, AudioPipelineCommandReceiverError>(
            Some(command),
        ) <==> waited == Ok::<AudioPipelineThreadCommand, String>(command),
        !(received_from_wait(waited) matches Ok(None)),
{
}

/// The pipeline's end of the command channel.
pub struct AudioPipelineCommandReceiver {
    command_receiver: std::sync::mpsc::Receiver<AudioPipelineThreadCommand>,
}

impl AudioPipelineCommandReceiver {
    /// The channel end that commands are read from.
    pub closed spec fn channel(&self) -> std::sync::mpsc::Receiver<AudioPipelineThreadCommand> {
        self.command_receiver
    }

    /// Reads commands from `command_receiver`.
    pub fn new(command_receiver: std::sync::mpsc::Receiver<AudioPipelineThreadCommand>) -> (receiver:
        Self)
        ensures
            receiver.channel() == command_receiver,
    {
        AudioPipelineCommandReceiver { command_receiver }
    }

    /// The next command. An idle or paused pipeline waits for one; an active
    /// pipeline only takes one that is already waiting, and gets `None` otherwise.
    pub fn receive(&self, status: &AudioPipelineStatus) -> (received: Result<
        Option<AudioPipelineThreadCommand>,
        AudioPipelineCommandReceiverError,
    >)
        ensures
            spec_blocks_for_commands(*status) ==> {
                &&& !(received matches Ok(None))
                &&& received matches Err(error) ==> error is ReceiveFailed
            },
            !spec_blocks_for_commands(*status) ==> (received matches Err(error)
                ==> error is ReceiveAttemptFailed),
            spec_blocks_for_commands(*status) ==> exists|waited: Result<AudioPipelineThreadCommand, String>|
                received == #[trigger] received_from_wait(waited),
            !spec_blocks_for_commands(*status) ==> exists|poll: CommandPoll|
                received == #[trigger] received_from_poll(poll),
    {
        if blocks_for_commands(status) {
            let waited = receive_command(&self.command_receiver);
            let ghost came = waited;
            let received = take_waited(waited);
            assert(received == received_from_wait(came));
            return received;
        }
        let poll = poll_command(&self.command_receiver);
        let ghost found = poll;
        let received = take_polled(poll);
        assert(received == received_from_poll(found));
        received
    }
}

} // verus!
