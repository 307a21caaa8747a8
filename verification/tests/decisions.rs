use std::sync::atomic::{AtomicBool, AtomicI64, AtomicU64, Ordering};
use std::sync::Arc;

use rtrb::RingBuffer;

use soundlore::playback::constants::SAMPLE_BUFFER_CAPACITY;
use soundlore::playback::engine::observe_default_device;
use soundlore::playback::engine::thread::{clear_sample_queue, AudioEngineDataProcessor};
use soundlore::playback::pipeline::sink::{queue_drained, AudioSink, AudioSinkError};
use soundlore::playback::pipeline::stage::channel_converter::{AudioChannelConverter, ConvertedSamples};
use soundlore::playback::pipeline::stage::resampler::{
    AudioResamplerState, AudioResamplerStatus, ResamplingMode, ResamplingPass,
};
use soundlore::playback::{caught_up, GenerationCounter};
use soundlore::file::utils::track_file_format;
use soundlore::track::{StandardTag, Track, TrackTags};

fn processor(consumer: rtrb::Consumer<u32>) -> AudioEngineDataProcessor {
    AudioEngineDataProcessor {
        sample_buffer_consumer: consumer,
        samples_played: Arc::new(AtomicU64::new(0)),
        track_start_timestamp: Arc::new(AtomicI64::new(0)),
        samples_played_timestamp_offset: Arc::new(AtomicU64::new(0)),
        generation_counter: Arc::new(GenerationCounter::new()),
        paused: Arc::new(AtomicBool::new(false)),
    }
}

#[test]
fn the_engine_has_caught_up_when_the_generations_agree() {
    assert!(caught_up(0, 0));
    assert!(caught_up(7, 7));
    assert!(!caught_up(1, 2));
    assert!(!caught_up(3, 2));
}

#[test]
fn the_queue_has_drained_when_every_slot_is_free() {
    assert!(queue_drained(SAMPLE_BUFFER_CAPACITY));
    assert!(!queue_drained(SAMPLE_BUFFER_CAPACITY - 1));
    assert!(!queue_drained(0));
}

#[test]
fn writing_follows_the_generations_given() {
    let (producer, mut consumer) = RingBuffer::<u32>::new(2);
    let mut sink = AudioSink::new(producer, Arc::new(GenerationCounter::new()));
    sink.buffer(&[4, 5, 6]);
    assert_eq!(sink.write_loaded(0, 1), Err(AudioSinkError::AwaitingBufferClear));
    assert!(consumer.pop().is_err());
    assert_eq!(sink.write_loaded(1, 1), Err(AudioSinkError::FullRingBuffer));
    assert_eq!(consumer.pop(), Ok(4));
    assert_eq!(consumer.pop(), Ok(5));
    assert_eq!(sink.write_loaded(2, 2), Ok(()));
    assert!(sink.is_empty());
    assert_eq!(consumer.pop(), Ok(6));
    assert_eq!(sink.free_queue_slots(), 2);
}

#[test]
fn the_engine_queue_reads_empty_only_once_drained() {
    let (producer, mut consumer) = RingBuffer::<u32>::new(SAMPLE_BUFFER_CAPACITY);
    let mut sink = AudioSink::new(producer, Arc::new(GenerationCounter::new()));
    assert!(sink.is_engine_buffer_empty());
    sink.buffer(&[1]);
    assert_eq!(sink.write(), Ok(()));
    assert!(!sink.is_engine_buffer_empty());
    assert_eq!(consumer.pop(), Ok(1));
    assert!(sink.is_engine_buffer_empty());
}

#[test]
fn a_new_generation_drops_the_queue_before_filling() {
    let (mut producer, consumer) = RingBuffer::<u32>::new(8);
    let mut processor = processor(consumer);
    for sample in [1, 2, 3] {
        producer.push(sample).unwrap();
    }
    let outcome = processor.process_loaded(2, 0, 1, false, 40, 10);
    assert!(outcome.resynchronized);
    assert!(outcome.queue_emptied);
    assert_eq!(outcome.discarded, 3);
    assert_eq!(outcome.track_start_timestamp, Some(30));
    assert!(!outcome.paused);
    assert_eq!(outcome.slots, vec![None, None]);
    assert_eq!(outcome.samples_played, 0);
    assert_eq!(processor.track_start_timestamp.load(Ordering::Relaxed), 30);
    assert_eq!(processor.generation_counter.audio_engine.load(Ordering::Relaxed), 1);
    assert_eq!(processor.sample_buffer_consumer.slots(), 0);
}

#[test]
fn the_same_generation_plays_the_queue_in_order() {
    let (mut producer, consumer) = RingBuffer::<u32>::new(8);
    let mut processor = processor(consumer);
    for sample in [7, 8, 9] {
        producer.push(sample).unwrap();
    }
    let outcome = processor.process_loaded(2, 3, 3, false, 0, 0);
    assert!(!outcome.resynchronized);
    assert!(!outcome.queue_emptied);
    assert_eq!(outcome.discarded, 0);
    assert_eq!(outcome.track_start_timestamp, None);
    assert_eq!(outcome.slots, vec![Some(7), Some(8)]);
    assert_eq!(outcome.samples_played, 2);
    assert_eq!(processor.samples_played.load(Ordering::Relaxed), 2);
    let paused = processor.process_loaded(2, 3, 3, true, 2, 0);
    assert!(paused.paused);
    assert_eq!(paused.slots, vec![None, None]);
    assert_eq!(paused.samples_played, 0);
    assert_eq!(processor.sample_buffer_consumer.pop(), Ok(9));
}

#[test]
fn processing_reads_the_shared_flags() {
    let (mut producer, consumer) = RingBuffer::<u32>::new(8);
    let mut processor = processor(consumer);
    producer.push(5).unwrap();
    processor.paused.store(true, Ordering::Relaxed);
    let outcome = processor.process(1);
    assert!(outcome.paused);
    assert!(!outcome.resynchronized);
    assert_eq!(outcome.slots, vec![None]);
    processor.paused.store(false, Ordering::Relaxed);
    processor.generation_counter.increase_audio_pipeline_generation();
    processor.samples_played.store(100, Ordering::Relaxed);
    processor.samples_played_timestamp_offset.store(612, Ordering::Relaxed);
    let outcome = processor.process(1);
    assert!(outcome.resynchronized);
    assert_eq!(outcome.discarded, 1);
    assert_eq!(outcome.track_start_timestamp, Some(-512));
    assert_eq!(processor.track_start_timestamp.load(Ordering::Relaxed), -512);
    assert_eq!(outcome.slots, vec![None]);
}

#[test]
fn the_default_device_is_watched_for_changes() {
    let mut current: Option<String> = None;
    assert!(!observe_default_device(&mut current, None));
    assert_eq!(current, None);
    assert!(!observe_default_device(&mut current, Some("speakers".to_string())));
    assert_eq!(current.as_deref(), Some("speakers"));
    assert!(!observe_default_device(&mut current, Some("speakers".to_string())));
    assert!(!observe_default_device(&mut current, None));
    assert_eq!(current.as_deref(), Some("speakers"));
    assert!(observe_default_device(&mut current, Some("headphones".to_string())));
    assert_eq!(current.as_deref(), Some("headphones"));
}

#[test]
fn track_records_take_what_the_codec_parameters_give() {
    let track = Track::from_properties(
        4,
        "/music/a.flac".to_string(),
        "flac".to_string(),
        Some(44100),
        Some(2),
        Some(88200),
    );
    assert_eq!(track.id, 4);
    assert_eq!(track.file_path, "/music/a.flac");
    assert_eq!(track.file_format, "flac");
    assert_eq!((track.sample_rate, track.channels, track.frames), (44100, 2, 88200));
    let bare = Track::from_properties(5, "/music/b.ogg".to_string(), "ogg".to_string(), None, None, None);
    assert_eq!((bare.sample_rate, bare.channels, bare.frames), (0, 0, 0));
}

#[test]
fn unread_input_is_kept_for_the_next_call() {
    let mut state = AudioResamplerState::new(44100, 2, 48000, 2, 0);
    let input = state.take_input(ResamplingMode::Resample, &[1, 2, 3, 4, 5, 6]);
    assert_eq!(input, vec![1, 2, 3, 4, 5, 6]);
    state.begin(ResamplingMode::Resample, input.len());
    let pass = ResamplingPass { input_frames_left: 1, output_frames_left: 0, input_offset: 2, partial_len: None };
    state.finish_pass(&pass, &input, 4, 2);
    assert_eq!(state.leftover, vec![5, 6]);
    assert_eq!(state.total_samples_read, 4);
    assert_eq!(state.total_samples_delivered, 4);
    let next = state.take_input(ResamplingMode::Flush, &[7, 8]);
    assert_eq!(next, vec![7, 8, 5, 6]);
    assert!(state.leftover.is_empty());
    state.begin(ResamplingMode::Flush, next.len());
    let flushed = ResamplingPass { input_frames_left: 0, output_frames_left: 0, input_offset: 0, partial_len: Some(0) };
    state.finish_pass(&flushed, &next, 3, 2);
    assert!(state.leftover.is_empty());
    assert_eq!(state.total_samples_read, 8);
    assert_eq!(state.total_samples_delivered, 7);
    assert_eq!(state.status, AudioResamplerStatus::Finished);
}

#[test]
fn upmixing_then_averaging_gives_back_the_mono_samples() {
    let mono: Vec<u32> = vec![0.5f32.to_bits(), (-0.25f32).to_bits(), 1.0f32.to_bits()];
    let stereo = match AudioChannelConverter::convert(&mono, 1, 2) {
        Ok(ConvertedSamples::Samples(samples)) => samples,
        _ => panic!("mono to stereo is supported"),
    };
    let frames = match AudioChannelConverter::convert(&stereo, 2, 1) {
        Ok(ConvertedSamples::FramesToAverage(frames)) => frames,
        _ => panic!("stereo to mono is supported"),
    };
    let averaged: Vec<u32> = frames
        .iter()
        .map(|(left, right)| ((f32::from_bits(*left) + f32::from_bits(*right)) / 2.0).to_bits())
        .collect();
    assert_eq!(averaged, mono);
}

#[test]
fn clearing_the_queue_discards_every_sample() {
    let (mut producer, mut consumer) = RingBuffer::<u32>::new(8);
    assert_eq!(clear_sample_queue(&mut consumer), (true, 0));
    for sample in [1, 2, 3, 4] {
        producer.push(sample).unwrap();
    }
    assert_eq!(clear_sample_queue(&mut consumer), (true, 4));
    assert!(consumer.pop().is_err());
    producer.push(5).unwrap();
    assert_eq!(consumer.pop(), Ok(5));
}

#[test]
fn tags_are_taken_in_order() {
    let mut tags = TrackTags::new();
    tags.apply_tags(&vec![
        (StandardTag::TrackTitle, "Old".to_string()),
        (StandardTag::TrackNumber, "4".to_string()),
        (StandardTag::Other, "x".to_string()),
        (StandardTag::TrackTitle, "New".to_string()),
    ]);
    assert_eq!(tags.title.as_deref(), Some("New"));
    assert_eq!(tags.track_number, Some(4));
    assert_eq!(tags.artist, None);
}

#[test]
fn the_file_format_is_the_lower_case_extension() {
    assert_eq!(track_file_format("/music/Song.FLAC"), "flac");
    assert_eq!(track_file_format("/music/a.Ogg"), "ogg");
    assert_eq!(track_file_format("/music/README"), "");
}
