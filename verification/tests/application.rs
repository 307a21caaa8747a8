use std::sync::atomic::{AtomicU64, Ordering};
use std::sync::mpsc::Receiver;
use std::sync::Arc;

use rtrb::RingBuffer;

use soundlore::app::{AppStatus, Library, LibraryAction, LibraryMessage};
use soundlore::error::AppError;
use soundlore::outcome::{handle_outcome, Outcome, PlaybackOutcome};
use soundlore::playback::engine::{AudioEngine, PlaybackEngineError, PlaybackEngineStatus};
use soundlore::playback::error::get_audio_controller_error_message;
use soundlore::playback::handler::{
    handle_playback, play_track, position_due, Message, PlaybackProgress, PlaybackReaction,
};
use soundlore::playback::pipeline::command::{
    AudioPipelineCommandReceiver, AudioPipelineCommandReceiverError,
};
use soundlore::playback::pipeline::builder::AudioPipelineBuilderError;
use soundlore::playback::pipeline::sink::{AudioSink, AudioSinkError};
use soundlore::playback::pipeline::stage::channel_converter::AudioChannelConverterError;
use soundlore::playback::pipeline::stage::decoder::AudioDecoderError;
use soundlore::playback::pipeline::stage::resampler::AudioResamplerError;
use soundlore::playback::pipeline::thread::{AudioPipelineThreadCommand, AudioPipelineThreadEvent};
use soundlore::playback::pipeline::{
    AudioFormat, AudioPipeline, AudioPipelineConfiguration, AudioPipelineError,
    AudioPipelineErrorReaction, AudioPipelineStatus,
};
use soundlore::playback::{
    GenerationCounter, PlaybackController, PlaybackControllerError, PlaybackControllerStatus,
};
use soundlore::track::Track;

fn track(id: i64, sample_rate: i64) -> Track {
    Track {
        id,
        file_path: format!("/music/{id}.flac"),
        file_format: "flac".to_string(),
        sample_rate,
        channels: 2,
        frames: 441000,
    }
}

fn controller_with_output() -> (PlaybackController, Receiver<AudioPipelineThreadCommand>) {
    let (sender, receiver) = std::sync::mpsc::channel();
    let mut controller = PlaybackController::new(
        AudioEngine::new(),
        sender,
        Arc::new(AtomicU64::new(0)),
        Arc::new(GenerationCounter::new()),
    );
    let (producer, _consumer) = RingBuffer::<u32>::new(16);
    controller
        .initialize_output(AudioFormat { sample_rate: 48000, channels: 2 }, producer)
        .unwrap();
    assert!(matches!(receiver.try_recv(), Ok(AudioPipelineThreadCommand::ChangeOutput { .. })));
    (controller, receiver)
}

#[test]
fn library_follows_loads_and_scans() {
    let mut library = Library::new();
    assert_eq!(library.status, AppStatus::Idle);
    assert!(library.tracks.is_empty());

    assert!(matches!(library.update(LibraryMessage::LoadTracks), LibraryAction::LoadTracks));
    assert!(matches!(
        library.update(LibraryMessage::LoadedTracks(Ok(vec![track(1, 44100), track(2, 48000)]))),
        LibraryAction::Nothing
    ));
    assert_eq!(library.tracks.len(), 2);
    assert!(matches!(
        library.update(LibraryMessage::LoadedTracks(Err(AppError::Io("gone".to_string())))),
        LibraryAction::Failed(AppError::Io(message)) if message == "gone"
    ));
    assert_eq!(library.tracks.len(), 2);

    assert!(matches!(library.update(LibraryMessage::ScanDirectory(None)), LibraryAction::Nothing));
    assert_eq!(library.status, AppStatus::Idle);
    assert!(matches!(
        library.update(LibraryMessage::ScanDirectory(Some(vec!["/music".to_string()]))),
        LibraryAction::ScanDirectories(directories) if directories == vec!["/music".to_string()]
    ));
    assert_eq!(library.status, AppStatus::AddingTracks);
    assert!(matches!(
        library.update(LibraryMessage::ScannedDirectory(Ok(()))),
        LibraryAction::LoadTracks
    ));
    assert_eq!(library.status, AppStatus::FinishedAddingTracks);

    library.status = AppStatus::AddingTracks;
    assert!(matches!(
        library.update(LibraryMessage::ScannedDirectory(Err(AppError::Io("denied".to_string())))),
        LibraryAction::Nothing
    ));
    assert_eq!(library.status, AppStatus::FinishedAddingTracks);
}

#[test]
fn a_finished_track_plays_the_next_displayed_one() {
    let (mut controller, receiver) = controller_with_output();
    let tracks = vec![track(1, 44100), track(2, 44100), track(3, 44100)];
    let displayed = vec![3, 1, 2];
    let mut current = Some(1);
    let reaction = handle_playback(
        &mut controller,
        &tracks,
        &displayed,
        &mut current,
        0,
        Message::AudioPipelineEvent(AudioPipelineThreadEvent::TrackFinished),
    );
    assert!(matches!(reaction, PlaybackReaction::PlayedTrack(2)));
    assert_eq!(current, Some(2));
    assert!(controller.status == PlaybackControllerStatus::Playing);
    assert!(matches!(receiver.try_recv(), Ok(AudioPipelineThreadCommand::Play(t)) if t.id == 2));

    let reaction = handle_playback(
        &mut controller,
        &tracks,
        &displayed,
        &mut current,
        0,
        Message::AudioPipelineEvent(AudioPipelineThreadEvent::TrackFinished),
    );
    assert!(matches!(reaction, PlaybackReaction::Nothing));
    assert_eq!(current, Some(2));
    assert!(receiver.try_recv().is_err());
}

#[test]
fn a_finished_track_missing_from_the_library_is_reported() {
    let (mut controller, _receiver) = controller_with_output();
    let tracks = vec![track(1, 44100)];
    let mut current = Some(1);
    let reaction = handle_playback(
        &mut controller,
        &tracks,
        &vec![1, 9],
        &mut current,
        0,
        Message::AudioPipelineEvent(AudioPipelineThreadEvent::TrackFinished),
    );
    assert!(matches!(
        reaction,
        PlaybackReaction::Failed(AppError::TrackNotFound { id: Some(9), path: None })
    ));
    assert_eq!(current, Some(1));
}

#[test]
fn pipeline_events_reach_the_controller() {
    let (mut controller, _receiver) = controller_with_output();
    let mut current = None;
    controller.play(track(1, 44100)).unwrap();
    let reaction = handle_playback(
        &mut controller,
        &vec![],
        &vec![],
        &mut current,
        0,
        Message::AudioPipelineEvent(AudioPipelineThreadEvent::StartedAudioPipeline),
    );
    assert!(matches!(reaction, PlaybackReaction::Nothing));
    assert_eq!(controller.engine_status(), PlaybackEngineStatus::Playing);
    let reaction = handle_playback(
        &mut controller,
        &vec![],
        &vec![],
        &mut current,
        0,
        Message::AudioPipelineEvent(AudioPipelineThreadEvent::StoppedAudioPipeline),
    );
    assert!(matches!(reaction, PlaybackReaction::Nothing));
    assert!(controller.status == PlaybackControllerStatus::Stopped);
    assert_eq!(controller.engine_status(), PlaybackEngineStatus::Paused);
}

#[test]
fn device_changes_ask_for_a_new_output() {
    let (mut controller, _receiver) = controller_with_output();
    let mut current = None;
    assert!(matches!(
        handle_playback(&mut controller, &vec![], &vec![], &mut current, 0, Message::PendingOutputDeviceChange),
        PlaybackReaction::RebuildOutput
    ));
    assert!(matches!(
        handle_playback(&mut controller, &vec![], &vec![], &mut current, 0, Message::OutputDeviceChanged),
        PlaybackReaction::Nothing
    ));
    assert!(matches!(
        handle_playback(
            &mut controller,
            &vec![],
            &vec![],
            &mut current,
            0,
            Message::OutputDeviceChangeFailed(PlaybackControllerError::PlaybackEngine(
                PlaybackEngineError::OutputDeviceNotFound
            ))
        ),
        PlaybackReaction::Failed(AppError::PlaybackController(PlaybackControllerError::PlaybackEngine(
            PlaybackEngineError::OutputDeviceNotFound
        )))
    ));
}

#[test]
fn the_position_poll_waits_for_the_engine_generation() {
    let (mut controller, _receiver) = controller_with_output();
    let tracks = vec![track(4, 44100)];
    let mut current = Some(4);
    let poll = |controller: &mut PlaybackController, current: &mut Option<i64>, threshold: u64| {
        handle_playback(
            controller,
            &tracks,
            &vec![4],
            current,
            threshold,
            Message::PollPlaybackCurrentPlaybackPosition,
        )
    };
    assert!(matches!(poll(&mut controller, &mut current, 0), PlaybackReaction::Nothing));

    controller.play(track(4, 44100)).unwrap();
    assert!(matches!(poll(&mut controller, &mut current, 0), PlaybackReaction::Nothing));

    controller.generation_counter().audio_engine.store(3, Ordering::Relaxed);
    controller.samples_played_counter().store(5000, Ordering::Relaxed);
    controller.track_start_timestamp_cell().store(1000, Ordering::Relaxed);
    assert!(matches!(poll(&mut controller, &mut current, 3), PlaybackReaction::Nothing));
    assert!(matches!(
        poll(&mut controller, &mut current, 2),
        PlaybackReaction::Progressed(PlaybackProgress {
            samples_played: 4000,
            track_sample_rate: 44100,
            output: AudioFormat { sample_rate: 48000, channels: 2 },
        })
    ));

    let mut unknown = Some(5);
    assert!(matches!(poll(&mut controller, &mut unknown, 0), PlaybackReaction::Nothing));
}

#[test]
fn position_due_checks_every_condition() {
    let output = AudioFormat { sample_rate: 48000, channels: 2 };
    assert_eq!(
        position_due(PlaybackControllerStatus::Playing, Some(44100), Some(output), 2, 1),
        Some((44100, output))
    );
    assert_eq!(position_due(PlaybackControllerStatus::Stopped, Some(44100), Some(output), 2, 1), None);
    assert_eq!(position_due(PlaybackControllerStatus::Playing, None, Some(output), 2, 1), None);
    assert_eq!(position_due(PlaybackControllerStatus::Playing, Some(44100), None, 2, 1), None);
    assert_eq!(position_due(PlaybackControllerStatus::Playing, Some(44100), Some(output), 1, 1), None);
}

#[test]
fn play_track_sets_the_current_track() {
    let (mut controller, receiver) = controller_with_output();
    let tracks = vec![track(1, 44100), track(2, 48000)];
    let mut current = None;
    assert_eq!(play_track(&mut controller, &tracks, &mut current, 2), Ok(()));
    assert_eq!(current, Some(2));
    assert!(matches!(receiver.try_recv(), Ok(AudioPipelineThreadCommand::Play(t)) if t.id == 2));
    assert_eq!(
        play_track(&mut controller, &tracks, &mut current, 7),
        Err(AppError::TrackNotFound { id: Some(7), path: None })
    );
    assert_eq!(current, Some(2));
    drop(receiver);
    assert!(matches!(
        play_track(&mut controller, &tracks, &mut current, 1),
        Err(AppError::PlaybackController(PlaybackControllerError::AudioPipelineCommandSendFailed(_)))
    ));
    assert_eq!(current, Some(2));
}

#[test]
fn error_messages_read_as_before() {
    assert_eq!(AudioSinkError::FullRingBuffer.message(), "the audio engine ring buffer is full");
    assert_eq!(
        AudioChannelConverterError::UnsupportedConversion(3, 12).message(),
        "unsupported conversion: 3 to 12."
    );
    assert_eq!(
        AudioChannelConverterError::UnsupportedConversion(0, 65535).message(),
        "unsupported conversion: 0 to 65535."
    );
    assert_eq!(
        AudioDecoderError::RecoverableDecoderError("bad frame".to_string()).message(),
        "recoverable audio decoder error: bad frame"
    );
    assert_eq!(
        AudioResamplerError::Resampler("too short".to_string()).message(),
        "resampler error: too short"
    );
    assert_eq!(
        AudioPipelineCommandReceiverError::ReceiveFailed("closed".to_string()).message(),
        "Failed to receive audio pipeline command: closed"
    );
    assert_eq!(
        AudioPipelineBuilderError::MissingParameters("output".to_string()).message(),
        "Missing parameter: output"
    );
    assert_eq!(
        AudioPipelineError::Decoder(AudioDecoderError::MissingAudioTrack).message(),
        "decoder error: missing audio track"
    );
    assert_eq!(
        get_audio_controller_error_message(AudioPipelineError::Sink(AudioSinkError::AwaitingBufferClear)),
        "sink error: awaiting for the ring buffer to clear"
    );
    assert_eq!(
        AppError::PlaybackController(PlaybackControllerError::PlaybackEngine(
            PlaybackEngineError::MissingStream
        ))
        .message(),
        "playback controller error - playback error - stream hasn't been built"
    );
    assert_eq!(
        AppError::DatabaseDowngradeDetected { current: 12, expected: -3 }.message(),
        "app was downgraded but database is already at version 12 (app expects -3), please update the app."
    );
    assert_eq!(
        AppError::DatabaseDowngradeDetected { current: i64::MIN, expected: i64::MAX }.message(),
        "app was downgraded but database is already at version -9223372036854775808 (app expects 9223372036854775807), please update the app."
    );
    assert_eq!(
        AppError::TrackNotFound { id: Some(42), path: None }.message(),
        "track not found: 42"
    );
    assert_eq!(
        AppError::TrackNotFound { id: Some(42), path: Some("/music/a.flac".to_string()) }.message(),
        "track not found: /music/a.flac"
    );
}

#[test]
fn failed_steps_are_classified() {
    let (_sender, receiver) = std::sync::mpsc::channel::<AudioPipelineThreadCommand>();
    let counter = Arc::new(GenerationCounter::new());
    let (producer, _consumer) = RingBuffer::<u32>::new(4);
    let _receiver = AudioPipelineCommandReceiver::new(receiver);
    let mut pipeline = AudioPipeline::new(
        AudioPipelineConfiguration {
            volume_percentage: 100,
            output: AudioFormat { sample_rate: 48000, channels: 2 },
        },
        AudioSink::new(producer, Arc::clone(&counter)),
        Arc::new(AtomicU64::new(0)),
        counter,
    );
    pipeline.start_track(track(1, 48000));
    let _ = pipeline.take_pending_events();
    assert_eq!(
        pipeline.handle_process_error(&AudioPipelineError::Sink(AudioSinkError::FullRingBuffer)),
        AudioPipelineErrorReaction::SleepUntilQueueDrains
    );
    assert_eq!(
        pipeline.handle_process_error(&AudioPipelineError::Decoder(
            AudioDecoderError::RecoverableDecoderError("glitch".to_string())
        )),
        AudioPipelineErrorReaction::Warn
    );
    assert_eq!(pipeline.status(), AudioPipelineStatus::Active);
    assert_eq!(
        pipeline.handle_process_error(&AudioPipelineError::Resampler(AudioResamplerError::Resampler(
            "bad".to_string()
        ))),
        AudioPipelineErrorReaction::Stopped
    );
    assert_eq!(pipeline.status(), AudioPipelineStatus::Idle);
    assert!(pipeline.take_pending_events().is_empty());
}

#[test]
fn the_controller_tells_the_pipeline_to_exit() {
    let (mut controller, receiver) = controller_with_output();
    assert_eq!(controller.exit_pipeline(), Ok(()));
    assert!(matches!(receiver.try_recv(), Ok(AudioPipelineThreadCommand::Exit)));
    drop(receiver);
    assert!(matches!(
        controller.exit_pipeline(),
        Err(PlaybackControllerError::AudioPipelineCommandSendFailed(_))
    ));
}

#[test]
fn the_output_queue_has_room_for_the_whole_buffer() {
    let (mut producer, mut consumer) = soundlore::playback::new_output_queue();
    assert_eq!(producer.slots(), soundlore::playback::constants::SAMPLE_BUFFER_CAPACITY);
    assert!(consumer.pop().is_err());
    assert!(producer.push(7).is_ok());
    assert_eq!(consumer.pop(), Ok(7));
}

#[test]
fn outcomes_play_tracks_and_drive_the_controller() {

    let (mut controller, receiver) = controller_with_output();
    let tracks = vec![track(1, 44100), track(2, 48000)];
    let mut current: Option<Track> = None;
    assert_eq!(
        handle_outcome(&mut controller, &tracks, &mut current, Outcome::Playback(PlaybackOutcome::Play(2))),
        Ok(true)
    );
    assert_eq!(current.as_ref().map(|t| t.id), Some(2));
    assert!(matches!(receiver.try_recv(), Ok(AudioPipelineThreadCommand::Play(t)) if t.id == 2));
    assert_eq!(
        handle_outcome(&mut controller, &tracks, &mut current, Outcome::Playback(PlaybackOutcome::Play(9))),
        Err(AppError::TrackNotFound { id: Some(9), path: None })
    );
    assert_eq!(current.as_ref().map(|t| t.id), Some(2));
    assert_eq!(
        handle_outcome(&mut controller, &tracks, &mut current, Outcome::Playback(PlaybackOutcome::Pause)),
        Ok(false)
    );
    assert!(controller.status == PlaybackControllerStatus::Stopped);
    assert!(matches!(receiver.try_recv(), Ok(AudioPipelineThreadCommand::Pause)));
    drop(receiver);
    assert!(matches!(
        handle_outcome(&mut controller, &tracks, &mut current, Outcome::Playback(PlaybackOutcome::Resume)),
        Err(AppError::PlaybackController(PlaybackControllerError::AudioPipelineCommandSendFailed(_)))
    ));
}
