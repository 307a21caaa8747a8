//! The output device callback: it drains the sample queue into the device buffer.

use std::sync::Arc;
use std::sync::atomic::{AtomicBool, AtomicI64, AtomicU64};
use vstd::prelude::*;

use crate::playback::{GenerationCounter, caught_up, spec_caught_up};
use crate::ring::{pop_sample, readable_samples};

verus! {

/// Number of slots of an output buffer that carry a sample rather than silence.
pub open spec fn sound_slot_count(slots: Seq<Option<u32>>) -> nat
    decreases slots.len(),
{
    if slots.len() == 0 {
        0
    } else {
        sound_slot_count(slots.drop_last()) + if slots.last() is Some {
            1nat
        } else {
            0nat
        }
    }
}

/// Position, in output samples, at which the current track started, given the
/// samples played so far and how far into the track the new samples begin.
pub open spec fn spec_track_start_timestamp(samples_played: u64, timestamp_offset: u64) -> i64 {
    (samples_played as i64).wrapping_sub(timestamp_offset as i64)
}

/// Computes `samples_played - timestamp_offset` as a signed sample position, in
/// two's complement as the output callback stores it.
pub fn track_start_timestamp(samples_played: u64, timestamp_offset: u64) -> (start: i64)
    ensures
        start == spec_track_start_timestamp(samples_played, timestamp_offset),
        samples_played <= i64::MAX && timestamp_offset <= i64::MAX ==> start == samples_played
            - timestamp_offset,
{
    let played = samples_played as i64;
    let offset = timestamp_offset as i64;
    played.wrapping_sub(offset)
}

} // verus!

verus! {

/// Discards every sample the queue holds: pops until the queue reads empty.
///
/// Returns whether the queue was seen empty at the end, and how many samples were
/// discarded. The samples the consumer already knew of are discarded first, oldest
/// first; the queue is seen empty once those (and any that arrived meanwhile) are
/// gone. Popping stops, with the queue not seen empty, only after `usize::MAX`
/// samples were discarded.
pub fn clear_sample_queue(consumer: &mut rtrb::Consumer<u32>) -> (cleared: (bool, usize))
    ensures
        cleared.0 ==> readable_samples(*final(consumer)).len() == 0,
        cleared.0 ==> cleared.1 >= readable_samples(*old(consumer)).len(),
        !cleared.0 ==> cleared.1 == usize::MAX,
        cleared.1 <= readable_samples(*old(consumer)).len() ==> readable_samples(*final(consumer))
            == readable_samples(*old(consumer)).skip(cleared.1 as int),
{
    let ghost known = readable_samples(*consumer);
    let mut discarded: usize = 0;
    while discarded < usize::MAX
        invariant
            discarded <= usize::MAX,
            known == readable_samples(*old(consumer)),
            discarded <= known.len() ==> readable_samples(*consumer) == known.skip(discarded as int),
        decreases usize::MAX - discarded,
    {
        let ghost before = readable_samples(*consumer);
        let popped = pop_sample(consumer);
        if popped.is_none() {
            proof {
                if discarded < known.len() {
                    assert(before.len() > 0);
                }
            }
            return (true, discarded);
        }
        proof {
            if discarded < known.len() {
                assert(known.skip(discarded as int).drop_first() =~= known.skip(discarded + 1));
            }
        }
        discarded = discarded + 1;
    }
    (false, discarded)
}

/// Fills `slot_count` output slots: while not paused each slot takes the next
/// queued sample, and a slot for which the queue has nothing stays silent (`None`).
/// Returns the slots and how many of them carry a sample.
pub fn fill_output_slots(consumer: &mut rtrb::Consumer<u32>, paused: bool, slot_count: usize) -> (filled: (
    Vec<Option<u32>>,
    u64,
))
    ensures
        filled.0.len() == slot_count,
        filled.1 == sound_slot_count(filled.0@),
        paused ==> readable_samples(*final(consumer)) == readable_samples(*old(consumer)),
        paused ==> forall|i: int| 0 <= i < slot_count ==> filled.0@[i] is None,
        !paused ==> forall|i: int|
            0 <= i < slot_count && i < readable_samples(*old(consumer)).len() ==> filled.0@[i]
                == Some(readable_samples(*old(consumer))[i]),
        !paused && slot_count <= readable_samples(*old(consumer)).len() ==> readable_samples(
            *final(consumer),
        ) == readable_samples(*old(consumer)).skip(slot_count as int),
{
    let ghost initial = readable_samples(*consumer);
    let mut output: Vec<Option<u32>> = Vec::with_capacity(slot_count);
    let mut played: u64 = 0;
    let mut index: usize = 0;
    while index < slot_count
        invariant
            index <= slot_count,
            output@.len() == index,
            played == sound_slot_count(output@),
            played <= index,
            paused ==> readable_samples(*consumer) == initial,
            paused ==> forall|i: int| 0 <= i < index ==> output@[i] is None,
            !paused ==> forall|i: int|
                0 <= i < index && i < initial.len() ==> output@[i] == Some(initial[i]),
            !paused && index <= initial.len() ==> readable_samples(*consumer) == initial.skip(
                index as int,
            ),
        decreases slot_count - index,
    {
        let ghost before = output@;
        let slot = if paused {
            None
        } else {
            pop_sample(consumer)
        };
        output.push(slot);
        proof {
            assert(output@.drop_last() == before);
            if !paused && index < initial.len() {
                assert(initial.skip(index as int).drop_first() == initial.skip(index + 1));
            }
        }
        if slot.is_some() {
            played = played + 1;
        }
        index = index + 1;
    }
    (output, played)
}

} // verus!

verus! {

/// What one run of the output callback did.
pub struct EngineCallbackOutcome {
    /// One entry per device slot: the sample it plays, or `None` for silence.
    pub slots: Vec<Option<u32>>,
    /// How many slots carry a sample; this is added to the shared played count.
    pub samples_played: u64,
    /// Whether the pipeline had moved to a new generation, so the queue was dropped.
    pub resynchronized: bool,
    /// Whether, on a new generation, the queue was seen empty once dropped.
    pub queue_emptied: bool,
    /// How many queued samples were dropped on a new generation.
    pub discarded: usize,
    /// On a new generation, the position in output samples at which the current
    /// track started, as stored for the controller.
    pub track_start_timestamp: Option<i64>,
    /// Whether the engine was paused during this run.
    pub paused: bool,
}

/// One run of the output callback over `slot_count` device slots, given the engine
/// and pipeline generations, the paused flag, the samples played so far and the
/// offset of the new generation's first sample as read, with the samples the
/// consumer knew to be readable before (`before`) and after (`after`):
/// - it resynchronizes exactly when the engine has not caught up (see `caught_up`):
///   then the track start position `samples_played - timestamp_offset` is stored,
///   and the queue is dropped (every known sample is discarded and the queue is
///   seen empty, unless `usize::MAX` samples were discarded first);
/// - a paused engine plays silence in every slot;
/// - the samples it plays come from the queue as it stood after the
///   resynchronization: unchanged without one, empty once dropped. Unless paused,
///   slot `i` plays the `i`-th of them; while paused, none is taken out.
pub open spec fn engine_callback_ran(
    before: Seq<u32>,
    after: Seq<u32>,
    slot_count: usize,
    engine_generation: u64,
    pipeline_generation: u64,
    paused: bool,
    samples_played: u64,
    timestamp_offset: u64,
    outcome: EngineCallbackOutcome,
) -> bool {
    let queued = if spec_caught_up(engine_generation, pipeline_generation) {
        before
    } else {
        Seq::empty()
    };
    &&& outcome.resynchronized == !spec_caught_up(engine_generation, pipeline_generation)
    &&& outcome.paused == paused
    &&& outcome.track_start_timestamp == if outcome.resynchronized {
        Some(spec_track_start_timestamp(samples_played, timestamp_offset))
    } else {
        None
    }
    &&& outcome.resynchronized ==> (outcome.queue_emptied || outcome.discarded == usize::MAX)
    &&& outcome.queue_emptied ==> outcome.discarded >= before.len()
    &&& !outcome.resynchronized ==> !outcome.queue_emptied && outcome.discarded == 0
    &&& outcome.slots@.len() == slot_count
    &&& outcome.samples_played == sound_slot_count(outcome.slots@)
    &&& paused ==> forall|i: int| 0 <= i < slot_count ==> outcome.slots@[i] is None
    &&& (!outcome.resynchronized || outcome.queue_emptied) ==> {
        &&& paused ==> after == queued
        &&& !paused ==> forall|i: int|
            0 <= i < slot_count && i < queued.len() ==> outcome.slots@[i] == Some(queued[i])
        &&& !paused && slot_count <= queued.len() ==> after == queued.skip(slot_count as int)
    }
}

/// The state that the output device callback owns or shares with the other threads.
pub struct AudioEngineDataProcessor {
    pub sample_buffer_consumer: rtrb::Consumer<u32>,
    pub samples_played: Arc<AtomicU64>,
    pub track_start_timestamp: Arc<AtomicI64>,
    pub samples_played_timestamp_offset: Arc<AtomicU64>,
    pub generation_counter: Arc<GenerationCounter>,
    pub paused: Arc<AtomicBool>,
}

impl AudioEngineDataProcessor {
    /// Runs the output callback for a device buffer of `slot_count` samples: reads
    /// the pipeline generation (acquire ordering), the engine generation, the paused
    /// flag, the samples played so far and the offset of the pipeline generation's
    /// first sample, and goes on as `process_loaded` does with them.
    pub fn process(&mut self, slot_count: usize) -> (outcome: EngineCallbackOutcome)
        ensures
            exists|
                engine_generation: u64,
                pipeline_generation: u64,
                paused: bool,
                samples_played: u64,
                timestamp_offset: u64,
            |
                engine_callback_ran(
                    readable_samples(old(self).sample_buffer_consumer),
                    readable_samples(final(self).sample_buffer_consumer),
                    slot_count,
                    engine_generation,
                    pipeline_generation,
                    paused,
                    samples_played,
                    timestamp_offset,
                    outcome,
                ),
    {
        let audio_pipeline_generation = self.generation_counter.audio_pipeline.load(
            std::sync::atomic::Ordering::Acquire,
        );
        let audio_engine_generation = self.generation_counter.audio_engine.load(
            std::sync::atomic::Ordering::Relaxed,
        );
        let paused = self.paused.load(std::sync::atomic::Ordering::Relaxed);
        let played = self.samples_played.load(std::sync::atomic::Ordering::Relaxed);
        let offset = self.samples_played_timestamp_offset.load(std::sync::atomic::Ordering::Relaxed);
        self.process_loaded(slot_count, audio_engine_generation, audio_pipeline_generation, paused, played, offset)
    }

    /// Runs the output callback for a device buffer of `slot_count` samples, given
    /// the generations, the paused flag, the samples played so far and the offset
    /// of the pipeline generation's first sample as read (see `engine_callback_ran`).
    ///
    /// When the pipeline generation differs from the engine generation, the track
    /// start position is set to `samples_played - samples_played_timestamp_offset`,
    /// the queue is emptied and the engine generation catches up. Then, unless paused,
    /// each slot takes the next queued sample; slots the queue cannot fill are silent.
    /// The number of sample slots is added to `samples_played`.
    pub fn process_loaded(
        &mut self,
        slot_count: usize,
        engine_generation: u64,
        pipeline_generation: u64,
        paused: bool,
        samples_played: u64,
        timestamp_offset: u64,
    ) -> (outcome: EngineCallbackOutcome)
        ensures
            engine_callback_ran(
                readable_samples(old(self).sample_buffer_consumer),
                readable_samples(final(self).sample_buffer_consumer),
                slot_count,
                engine_generation,
                pipeline_generation,
                paused,
                samples_played,
                timestamp_offset,
                outcome,
            ),
    {
        let resynchronized = !caught_up(engine_generation, pipeline_generation);
        let mut queue_emptied = false;
        let mut discarded: usize = 0;
        let mut started: Option<i64> = None;
        if resynchronized {
            let start = track_start_timestamp(samples_played, timestamp_offset);
            self.track_start_timestamp.store(start, std::sync::atomic::Ordering::Release);
            started = Some(start);
            let (emptied, dropped) = clear_sample_queue(&mut self.sample_buffer_consumer);
            queue_emptied = emptied;
            discarded = dropped;
            self.generation_counter.audio_engine.store(
                pipeline_generation,
                std::sync::atomic::Ordering::Release,
            );
        }
        let ghost queued = readable_samples(self.sample_buffer_consumer);
        proof {
            if queue_emptied {
                assert(queued =~= Seq::<u32>::empty());
            }
        }
        let (slots, played_now) = fill_output_slots(
            &mut self.sample_buffer_consumer,
            paused,
            slot_count,
        );
        let _ = self.samples_played.fetch_add(played_now, std::sync::atomic::Ordering::Relaxed);
        EngineCallbackOutcome {
            slots,
            samples_played: played_now,
            resynchronized,
            queue_emptied,
            discarded,
            track_start_timestamp: started,
            paused,
        }
    }
}

} // verus!
