//! The end of the pipeline: samples wait here until the engine queue has room.

use std::collections::VecDeque;
use std::sync::Arc;
use vstd::prelude::*;
use vstd::string::StringExecFns;

use crate::playback::GenerationCounter;
use crate::playback::constants::SAMPLE_BUFFER_CAPACITY;
use crate::playback::{caught_up, spec_caught_up};
use crate::ring::{free_slots, push_sample, pushed_samples, queue_capacity};

verus! {

/// Why the sink could not hand all its samples to the engine.
#[derive(Clone, Copy, Debug, PartialEq, Eq, Structural)]
pub enum AudioSinkError {
    /// The engine queue is full.
    FullRingBuffer,
    /// The engine has not yet dropped the samples of the previous generation.
    AwaitingBufferClear,
}

impl AudioSinkError {
    /// The error's message.
    pub open spec fn message_text(self) -> Seq<char> {
        match self {
            AudioSinkError::FullRingBuffer => "the audio engine ring buffer is full"@,
            AudioSinkError::AwaitingBufferClear => "awaiting for the ring buffer to clear"@,
        }
    }

    /// See `message_text`.
    pub fn message(&self) -> (text: String)
        ensures
            text@ == self.message_text(),
    {
        match self {
            AudioSinkError::FullRingBuffer => String::from_str("the audio engine ring buffer is full"),
            AudioSinkError::AwaitingBufferClear => String::from_str(
                "awaiting for the ring buffer to clear",
            ),
        }
    }
}

/// The sink's view: samples still waiting, and samples written to the engine queue.
#[verifier::ext_equal]
pub struct AudioSinkView {
    pub buffered: Seq<u32>,
    pub delivered: Seq<u32>,
}

/// Buffers pipeline output and writes it to the engine queue.
pub struct AudioSink {
    audio_engine_producer: rtrb::Producer<u32>,
    sample_buffer: VecDeque<u32>,
    generation_counter: Arc<GenerationCounter>,
}

impl View for AudioSink {
    type V = AudioSinkView;

    closed spec fn view(&self) -> AudioSinkView {
        AudioSinkView {
            buffered: self.sample_buffer@,
            delivered: pushed_samples(self.audio_engine_producer),
        }
    }
}

/// `new` is `old` after some of its buffered samples were written to the queue:
/// the samples delivered before stay, and the newly delivered ones followed by
/// those still buffered are what was buffered.
pub open spec fn written(old: AudioSinkView, new: AudioSinkView) -> bool {
    &&& new.delivered.len() >= old.delivered.len()
    &&& new.delivered.take(old.delivered.len() as int) == old.delivered
    &&& new.delivered.skip(old.delivered.len() as int) + new.buffered == old.buffered
}

/// What writing does, from `old` to `new` with `result`, given the generations
/// read: while the engine has not caught up with the pipeline (see `caught_up`)
/// nothing is written and `AwaitingBufferClear` comes back; otherwise samples are
/// written in order (`written`) and the buffer is empty (`Ok`) or the queue was
/// full with samples still waiting (`FullRingBuffer`).
pub open spec fn sink_wrote(
    old: AudioSinkView,
    new: AudioSinkView,
    result: Result<(), AudioSinkError>,
    engine_generation: u64,
    pipeline_generation: u64,
) -> bool {
    if !spec_caught_up(engine_generation, pipeline_generation) {
        result == Err::<(), AudioSinkError>(AudioSinkError::AwaitingBufferClear) && new == old
    } else {
        &&& written(old, new)
        &&& result is Ok ==> new.buffered.len() == 0
        &&& result is Err ==> result == Err::<(), AudioSinkError>(AudioSinkError::FullRingBuffer)
            && new.buffered.len() > 0
    }
}

/// Whether the engine queue has played everything written to it: all of its slots
/// are free.
pub open spec fn spec_queue_drained(free_slots: usize) -> bool {
    free_slots == SAMPLE_BUFFER_CAPACITY
}

/// See `spec_queue_drained`.
pub fn queue_drained(free_slots: usize) -> (drained: bool)
    ensures
        drained == spec_queue_drained(free_slots),
{
    free_slots == SAMPLE_BUFFER_CAPACITY
}

/// Everything the sink has taken in, oldest first: the samples delivered to the
/// queue followed by those still waiting.
pub open spec fn sink_stream(view: AudioSinkView) -> Seq<u32> {
    view.delivered + view.buffered
}

/// Writing never loses, repeats or reorders a sample: across any write the
/// delivered samples followed by the buffered ones stay the same.
pub proof fn lemma_write_keeps_stream(old: AudioSinkView, new: AudioSinkView)
    requires
        written(old, new),
    ensures
        sink_stream(new) =~= sink_stream(old),
{
    let n = old.delivered.len() as int;
    assert(new.delivered =~= new.delivered.take(n) + new.delivered.skip(n));
    assert(sink_stream(new) =~= old.delivered + (new.delivered.skip(n) + new.buffered));
}

/// Any number of writes in a row keeps the stream too: writing is transitive.
pub proof fn lemma_writes_compose(first: AudioSinkView, second: AudioSinkView, third: AudioSinkView)
    requires
        written(first, second),
        written(second, third),
    ensures
        written(first, third),
{
    let n = first.delivered.len() as int;
    let m = second.delivered.len() as int;
    assert(third.delivered.take(n) =~= third.delivered.take(m).take(n));
    assert(third.delivered.skip(n) =~= second.delivered.skip(n) + third.delivered.skip(m)) by {
        assert(third.delivered =~= third.delivered.take(m) + third.delivered.skip(m));
    }
    assert(third.delivered.skip(n) + third.buffered =~= second.delivered.skip(n) + (
    third.delivered.skip(m) + third.buffered));
}

impl AudioSink {
    /// An empty sink writing through `audio_engine_producer`.
    pub fn new(
        audio_engine_producer: rtrb::Producer<u32>,
        generation_counter: Arc<GenerationCounter>,
    ) -> (sink: Self)
        ensures
            sink@.buffered.len() == 0,
            sink@.delivered == pushed_samples(audio_engine_producer),
            sink.producer() == audio_engine_producer,
            sink.generation_counter() == generation_counter,
    {
        AudioSink { audio_engine_producer, generation_counter, sample_buffer: VecDeque::new() }
    }

    /// The queue end the sink writes into.
    pub closed spec fn producer(&self) -> rtrb::Producer<u32> {
        self.audio_engine_producer
    }

    /// The generations the sink checks before writing.
    pub closed spec fn generation_counter(&self) -> Arc<GenerationCounter> {
        self.generation_counter
    }

    /// The generations as the sink reads them now (see
    /// `GenerationCounter::load_generations`).
    pub fn load_generations(&self) -> (generations: (u64, u64)) {
        self.generation_counter.load_generations()
    }

    /// Number of free slots in the engine queue now: at most its capacity.
    pub fn free_queue_slots(&self) -> (free: usize)
        ensures
            free <= queue_capacity(self.producer()),
    {
        free_slots(&self.audio_engine_producer)
    }

    /// Writes buffered samples to the engine queue, oldest first, until the buffer
    /// is empty or the queue is full, after reading the generations (see
    /// `write_loaded`).
    pub fn write(&mut self) -> (result: Result<(), AudioSinkError>)
        ensures
            exists|engine_generation: u64, pipeline_generation: u64|
                sink_wrote(old(self)@, final(self)@, result, engine_generation, pipeline_generation),
            final(self).producer_queue_capacity() == old(self).producer_queue_capacity(),
            final(self).generation_counter() == old(self).generation_counter(),
    {
        let (engine_generation, pipeline_generation) = self.load_generations();
        let result = self.write_loaded(engine_generation, pipeline_generation);
        assert(sink_wrote(old(self)@, self@, result, engine_generation, pipeline_generation));
        result
    }

    /// The capacity of the engine queue.
    pub closed spec fn producer_queue_capacity(&self) -> nat {
        queue_capacity(self.audio_engine_producer)
    }

    /// Writes buffered samples to the engine queue, given the generations read:
    /// nothing while the engine is still on an older generation than the pipeline
    /// (`AwaitingBufferClear`), otherwise oldest first until the buffer is empty
    /// (`Ok`) or the queue is full (`FullRingBuffer`); see `sink_wrote`.
    pub fn write_loaded(&mut self, engine_generation: u64, pipeline_generation: u64) -> (result: Result<
        (),
        AudioSinkError,
    >)
        ensures
            sink_wrote(old(self)@, final(self)@, result, engine_generation, pipeline_generation),
            final(self).producer_queue_capacity() == old(self).producer_queue_capacity(),
            final(self).generation_counter() == old(self).generation_counter(),
    {
        if !caught_up(engine_generation, pipeline_generation) {
            proof {
                let delivered = pushed_samples(self.audio_engine_producer);
                assert(delivered.take(delivered.len() as int) =~= delivered);
                assert(delivered.skip(delivered.len() as int) + self.sample_buffer@
                    =~= self.sample_buffer@);
            }
            return Err(AudioSinkError::AwaitingBufferClear);
        }
        let ghost start_delivered = pushed_samples(self.audio_engine_producer);
        let ghost start_buffered = self.sample_buffer@;
        while self.sample_buffer.len() > 0
            invariant
                spec_caught_up(engine_generation, pipeline_generation),
                self.generation_counter == old(self).generation_counter,
                queue_capacity(self.audio_engine_producer) == queue_capacity(
                    old(self).audio_engine_producer,
                ),
                start_delivered == pushed_samples(old(self).audio_engine_producer),
                start_buffered == old(self).sample_buffer@,
                pushed_samples(self.audio_engine_producer).len() >= start_delivered.len(),
                pushed_samples(self.audio_engine_producer).take(start_delivered.len() as int)
                    == start_delivered,
                pushed_samples(self.audio_engine_producer).skip(start_delivered.len() as int)
                    + self.sample_buffer@ == start_buffered,
            decreases self.sample_buffer@.len(),
        {
            let sample = self.sample_buffer[0];
            let ghost before = pushed_samples(self.audio_engine_producer);
            if !push_sample(&mut self.audio_engine_producer, sample) {
                return Err(AudioSinkError::FullRingBuffer);
            }
            let ghost rest = self.sample_buffer@.drop_first();
            let _ = self.sample_buffer.pop_front();
            proof {
                let after = pushed_samples(self.audio_engine_producer);
                assert(after.take(start_delivered.len() as int) == before.take(
                    start_delivered.len() as int,
                ));
                assert(after.skip(start_delivered.len() as int) == before.skip(
                    start_delivered.len() as int,
                ).push(sample));
                assert(before.skip(start_delivered.len() as int).push(sample) + rest == before.skip(
                    start_delivered.len() as int,
                ) + self.sample_buffer@.insert(0, sample)) by {
                    assert(self.sample_buffer@.insert(0, sample) == seq![sample] + rest);
                }
            }
        }
        Ok(())
    }

    /// Whether no samples wait in the sink.
    pub fn is_empty(&self) -> (empty: bool)
        ensures
            empty == (self@.buffered.len() == 0),
    {
        self.sample_buffer.len() == 0
    }

    /// Whether the engine queue has every slot free, that is, the engine has
    /// played everything written to it (see `queue_drained`), as read now.
    pub fn is_engine_buffer_empty(&self) -> (drained: bool)
        ensures
            exists|free: usize|
                free <= self.producer_queue_capacity() && drained == spec_queue_drained(free),
    {
        let free = self.free_queue_slots();
        let drained = queue_drained(free);
        assert(free <= self.producer_queue_capacity() && drained == spec_queue_drained(free));
        drained
    }

    /// Appends `samples` to the sink.
    pub fn buffer(&mut self, samples: &[u32])
        ensures
            final(self)@.buffered == old(self)@.buffered + samples@,
            final(self)@.delivered == old(self)@.delivered,
    {
        let mut index: usize = 0;
        while index < samples.len()
            invariant
                index <= samples@.len(),
                self.sample_buffer@ == old(self).sample_buffer@ + samples@.take(index as int),
                pushed_samples(self.audio_engine_producer) == pushed_samples(
                    old(self).audio_engine_producer,
                ),
            decreases samples@.len() - index,
        {
            self.sample_buffer.push_back(samples[index]);
            proof {
                assert(samples@.take(index + 1) == samples@.take(index as int).push(samples@[index as int]));
            }
            index = index + 1;
        }
        proof {
            assert(samples@.take(samples@.len() as int) == samples@);
        }
    }

    /// Drops every sample waiting in the sink.
    pub fn clear(&mut self)
        ensures
            final(self)@.buffered.len() == 0,
            final(self)@.delivered == old(self)@.delivered,
    {
        self.sample_buffer.clear();
    }
}

} // verus!
