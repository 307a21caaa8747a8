use std::sync::atomic::{AtomicU64, Ordering};
use std::sync::Arc;

use rtrb::RingBuffer;

use soundlore::database::{check_schema_version, get_applied_migrations_count};
use soundlore::error::AppError;
use soundlore::file::utils::{is_supported_extension, is_supported_music_file, is_supported_track_file};
use soundlore::log::{log_error_chain, select_log_level, LogLevel};
use soundlore::outcome::{find_track, handle_playback_outcome, next_track_id, start_playing, PlaybackOutcome};
use soundlore::playback::engine::thread::track_start_timestamp;
use soundlore::playback::engine::{AudioEngine, PlaybackEngineError, PlaybackEngineStatus};
use soundlore::playback::pipeline::thread::{AudioPipelineThreadCommand, AudioPipelineThreadEvent};
use soundlore::playback::pipeline::AudioFormat;
use soundlore::playback::{
    samples_since_start, GenerationCounter, PlaybackController, PlaybackControllerError,
    PlaybackControllerStatus,
};
use soundlore::track::{StandardTag, Track, TrackTags};

fn track(id: i64) -> Track {
    Track {
        id,
        file_path: format!("/music/{id}.flac"),
        file_format: "flac".to_string(),
        sample_rate: 44100,
        channels: 2,
        frames: 441000,
    }
}

#[test]
fn recognises_supported_track_files() {
    assert!(is_supported_track_file("song.mp3"));
    assert!(is_supported_track_file("/music/album/01 - intro.flac"));
    assert!(is_supported_track_file("take.aiff"));
    assert!(is_supported_music_file("a/b/c.opus"));
    assert!(is_supported_track_file("folder.wav/"));
}

#[test]
fn rejects_other_files() {
    assert!(!is_supported_track_file("song.MP3"));
    assert!(!is_supported_track_file("notes.txt"));
    assert!(!is_supported_track_file("archive.tar.gz"));
    assert!(!is_supported_track_file("mp3"));
    assert!(!is_supported_track_file(".mp3"));
    assert!(!is_supported_music_file(""));
    assert!(!is_supported_extension(&"m4b".to_string()));
    assert!(is_supported_extension(&"m4a".to_string()));
}

#[test]
fn schema_version_ahead_of_application_is_a_downgrade() {
    assert_eq!(
        check_schema_version(3, 5),
        Err(AppError::DatabaseDowngradeDetected { current: 5, expected: 3 })
    );
    assert_eq!(check_schema_version(5, 3), Ok(()));
    assert_eq!(check_schema_version(4, 4), Ok(()));
}

#[test]
fn applied_migrations_need_the_bookkeeping_table() {
    assert_eq!(get_applied_migrations_count(0, None), 0);
    assert_eq!(get_applied_migrations_count(0, Some(7)), 0);
    assert_eq!(get_applied_migrations_count(1, Some(4)), 4);
}

#[test]
fn next_track_follows_the_displayed_order() {
    let displayed = vec![1, 2, 3];
    assert_eq!(next_track_id(&displayed, Some(1)), Some(2));
    assert_eq!(next_track_id(&displayed, Some(2)), Some(3));
    assert_eq!(next_track_id(&displayed, Some(3)), None);
    assert_eq!(next_track_id(&displayed, Some(9)), None);
    assert_eq!(next_track_id(&displayed, None), None);
    assert_eq!(next_track_id(&vec![1, 2, 1, 3], Some(1)), Some(2));
}

#[test]
fn finds_tracks_by_id() {
    let tracks = vec![track(1), track(2)];
    assert_eq!(find_track(&tracks, 2).unwrap().file_path, "/music/2.flac");
    assert_eq!(
        find_track(&tracks, 3).unwrap_err(),
        AppError::TrackNotFound { id: Some(3), path: None }
    );
}

#[test]
fn current_track_position_is_clamped_at_zero() {
    assert_eq!(samples_since_start(100, 40), 60);
    assert_eq!(samples_since_start(10, 40), 0);
    assert_eq!(samples_since_start(10, -5), 15);
}

#[test]
fn track_start_is_played_minus_offset() {
    assert_eq!(track_start_timestamp(1024, 512), 512);
    assert_eq!(track_start_timestamp(0, 512), -512);
}

#[test]
fn position_restarts_at_the_seek_offset() {
    let start = track_start_timestamp(1000, 300);
    assert_eq!(samples_since_start(1050, start), 350);
    assert_eq!(samples_since_start(1000, start), 300);
}

#[test]
fn error_chain_lines_indent_the_causes() {
    let lines = log_error_chain(&vec![
        "playback failed".to_string(),
        "stream closed".to_string(),
        "device gone".to_string(),
    ]);
    assert_eq!(
        lines,
        vec![
            "playback failed".to_string(),
            "  caused by: stream closed".to_string(),
            "  caused by: device gone".to_string(),
        ]
    );
    assert!(log_error_chain(&vec![]).is_empty());
}

#[test]
fn engine_needs_a_stream_to_change_status() {
    let mut engine = AudioEngine::new();
    assert_eq!(*engine.status(), PlaybackEngineStatus::Paused);
    assert_eq!(engine.play(), Err(PlaybackEngineError::MissingStream));
    assert_eq!(*engine.status(), PlaybackEngineStatus::Paused);
    engine.attach_stream();
    assert_eq!(engine.play(), Ok(()));
    assert_eq!(*engine.status(), PlaybackEngineStatus::Playing);
    assert!(!engine.paused_flag().load(Ordering::Relaxed));
    assert_eq!(engine.pause(), Ok(()));
    assert_eq!(*engine.status(), PlaybackEngineStatus::Paused);
    assert!(engine.paused_flag().load(Ordering::Relaxed));
}

fn controller() -> (
    PlaybackController,
    std::sync::mpsc::Receiver<AudioPipelineThreadCommand>,
) {
    let (sender, receiver) = std::sync::mpsc::channel();
    let controller = PlaybackController::new(
        AudioEngine::new(),
        sender,
        Arc::new(AtomicU64::new(0)),
        Arc::new(GenerationCounter::new()),
    );
    (controller, receiver)
}

#[test]
fn controller_without_output_cannot_play() {
    let (mut controller, receiver) = controller();
    assert!(controller.status == PlaybackControllerStatus::Stopped);
    assert_eq!(
        controller.play(track(1)),
        Err(PlaybackControllerError::PlaybackEngine(PlaybackEngineError::MissingStream))
    );
    assert!(controller.status == PlaybackControllerStatus::Stopped);
    assert!(receiver.try_recv().is_err());
}

#[test]
fn controller_plays_and_pauses_through_the_pipeline() {
    let (mut controller, receiver) = controller();
    let (producer, _consumer) = RingBuffer::<u32>::new(16);
    let format = AudioFormat { sample_rate: 48000, channels: 2 };
    assert_eq!(controller.initialize_output(format, producer), Ok(()));
    assert_eq!(controller.output_format, Some(format));
    assert!(matches!(
        receiver.try_recv(),
        Ok(AudioPipelineThreadCommand::ChangeOutput { output, .. }) if output == format
    ));

    assert_eq!(controller.play(track(7)), Ok(()));
    assert!(controller.status == PlaybackControllerStatus::Playing);
    assert_eq!(controller.engine_status(), PlaybackEngineStatus::Paused);
    assert!(matches!(receiver.try_recv(), Ok(AudioPipelineThreadCommand::Play(t)) if t.id == 7));

    assert_eq!(
        controller.handle_audio_pipeline_event(&AudioPipelineThreadEvent::StartedAudioPipeline),
        Ok(())
    );
    assert_eq!(controller.engine_status(), PlaybackEngineStatus::Playing);

    assert_eq!(controller.pause(), Ok(()));
    assert!(controller.status == PlaybackControllerStatus::Stopped);
    assert!(matches!(receiver.try_recv(), Ok(AudioPipelineThreadCommand::Pause)));

    assert_eq!(
        controller.handle_audio_pipeline_event(&AudioPipelineThreadEvent::StoppedAudioPipeline),
        Ok(())
    );
    assert_eq!(controller.engine_status(), PlaybackEngineStatus::Paused);

    assert_eq!(controller.seek(4410), Ok(()));
    assert!(matches!(receiver.try_recv(), Ok(AudioPipelineThreadCommand::Seek(4410))));

    assert_eq!(controller.resume(), Ok(()));
    assert!(matches!(receiver.try_recv(), Ok(AudioPipelineThreadCommand::Resume)));
    assert_eq!(controller.stop(), Ok(()));
    assert!(matches!(receiver.try_recv(), Ok(AudioPipelineThreadCommand::Stop)));
}

#[test]
fn controller_reports_send_failures() {
    let (mut controller, receiver) = controller();
    drop(receiver);
    let (producer, _consumer) = RingBuffer::<u32>::new(16);
    let result = controller.initialize_output(AudioFormat { sample_rate: 44100, channels: 2 }, producer);
    assert!(matches!(result, Err(PlaybackControllerError::AudioPipelineCommandSendFailed(_))));
    assert!(matches!(
        controller.play(track(1)),
        Err(PlaybackControllerError::AudioPipelineCommandSendFailed(_))
    ));
    assert!(controller.status == PlaybackControllerStatus::Stopped);
}

#[test]
fn controller_position_follows_the_shared_counters() {
    let (controller, _receiver) = controller();
    controller.samples_played_counter().store(5000, Ordering::Relaxed);
    controller.track_start_timestamp_cell().store(1200, Ordering::Relaxed);
    assert_eq!(controller.current_track_samples_played(), 3800);
    controller.track_start_timestamp_cell().store(9000, Ordering::Relaxed);
    assert_eq!(controller.current_track_samples_played(), 0);
}

#[test]
fn playback_outcomes_drive_the_controller() {
    let (mut controller, receiver) = controller();
    let tracks = vec![track(3)];
    let mut current: Option<Track> = None;
    assert_eq!(
        handle_playback_outcome(&mut controller, &tracks, &mut current, PlaybackOutcome::Play(7)),
        Err(AppError::TrackNotFound { id: Some(7), path: None })
    );
    assert!(current.is_none());
    assert!(receiver.try_recv().is_err());
    assert!(matches!(
        handle_playback_outcome(&mut controller, &tracks, &mut current, PlaybackOutcome::Resume),
        Err(AppError::PlaybackController(PlaybackControllerError::PlaybackEngine(
            PlaybackEngineError::MissingStream
        )))
    ));
    let (producer, _consumer) = RingBuffer::<u32>::new(16);
    controller
        .initialize_output(AudioFormat { sample_rate: 44100, channels: 2 }, producer)
        .unwrap();
    let _ = receiver.try_recv();
    assert_eq!(
        handle_playback_outcome(
            &mut controller,
            &tracks,
            &mut current,
            PlaybackOutcome::Seek { timestamp: 10, post_seek_status: PlaybackControllerStatus::Playing }
        ),
        Ok(false)
    );
    assert!(controller.status == PlaybackControllerStatus::Playing);
    assert!(matches!(receiver.try_recv(), Ok(AudioPipelineThreadCommand::Seek(10))));
    assert!(matches!(receiver.try_recv(), Ok(AudioPipelineThreadCommand::Resume)));

    assert_eq!(
        handle_playback_outcome(&mut controller, &tracks, &mut current, PlaybackOutcome::Play(3)),
        Ok(true)
    );
    assert_eq!(current.as_ref().map(|t| t.id), Some(3));
    assert!(matches!(receiver.try_recv(), Ok(AudioPipelineThreadCommand::Play(t)) if t.id == 3));
    assert_eq!(
        handle_playback_outcome(&mut controller, &tracks, &mut current, PlaybackOutcome::Stop),
        Ok(false)
    );
    assert!(matches!(receiver.try_recv(), Ok(AudioPipelineThreadCommand::Stop)));
    assert!(controller.status == PlaybackControllerStatus::Stopped);
    assert_eq!(current.as_ref().map(|t| t.id), Some(3));

    let mut again: Option<Track> = None;
    let found = find_track(&tracks, 3).unwrap();
    assert_eq!(start_playing(&mut controller, &mut again, found), Ok(true));
    assert_eq!(again.map(|t| t.id), Some(3));
    assert!(matches!(receiver.try_recv(), Ok(AudioPipelineThreadCommand::Play(t)) if t.id == 3));
}

#[test]
fn tags_fill_the_track_record() {
    let mut tags = TrackTags::new();
    tags.apply_tag(StandardTag::TrackTitle, "Intro".to_string());
    tags.apply_tag(StandardTag::TrackNumber, "3".to_string());
    tags.apply_tag(StandardTag::DiscNumber, "1/2".to_string());
    tags.apply_tag(StandardTag::Date, "2021".to_string());
    tags.apply_tag(StandardTag::Other, "ignored".to_string());
    tags.apply_tag(StandardTag::TrackTitle, "Intro (remaster)".to_string());
    assert_eq!(tags.title.as_deref(), Some("Intro (remaster)"));
    assert_eq!(tags.track_number, Some(3));
    assert_eq!(tags.disc_number, None);
    assert_eq!(tags.year, Some(2021));
    assert_eq!(tags.artist, None);
    let mut numbers = TrackTags::new();
    numbers.apply_tag(StandardTag::TrackNumber, "+12".to_string());
    assert_eq!(numbers.track_number, Some(12));
    numbers.apply_tag(StandardTag::TrackNumber, "-7".to_string());
    assert_eq!(numbers.track_number, Some(-7));
    numbers.apply_tag(StandardTag::TrackNumber, " 7".to_string());
    assert_eq!(numbers.track_number, None);
    numbers.apply_tag(StandardTag::DiscNumber, "-".to_string());
    assert_eq!(numbers.disc_number, None);
    numbers.apply_tag(StandardTag::Date, "9223372036854775808".to_string());
    assert_eq!(numbers.year, None);
    numbers.apply_tag(StandardTag::Date, "-9223372036854775808".to_string());
    assert_eq!(numbers.year, Some(i64::MIN));
}

#[test]
fn log_level_follows_the_flags() {
    assert_eq!(select_log_level(false, false), LogLevel::Info);
    assert_eq!(select_log_level(true, false), LogLevel::Debug);
    assert_eq!(select_log_level(false, true), LogLevel::Trace);
    assert_eq!(select_log_level(true, true), LogLevel::Trace);
}

#[test]
fn errors_report_the_chain_of_their_causes() {
    let error = AppError::PlaybackController(PlaybackControllerError::PlaybackEngine(
        PlaybackEngineError::MissingStream,
    ));
    assert_eq!(
        error.chain_messages(),
        vec![
            "playback controller error - playback error - stream hasn't been built".to_string(),
            "playback error - stream hasn't been built".to_string(),
            "stream hasn't been built".to_string(),
        ]
    );
    assert_eq!(
        log_error_chain(&error.chain_messages())[2],
        "  caused by: stream hasn't been built".to_string()
    );
    let plain = AppError::Io("disk full".to_string());
    assert_eq!(plain.chain_messages(), vec!["io error - disk full".to_string()]);
    let read = AppError::TrackPropertiesRead("bad header".to_string());
    assert_eq!(
        read.chain_messages(),
        vec!["track read error - bad header".to_string(), "bad header".to_string()]
    );
}
