//! The single-producer single-consumer sample queue between the audio pipeline
//! thread and the output device callback (`rtrb`).
//!
//! Samples travel through the queue as the bit patterns of 32-bit floats.

use vstd::prelude::*;

verus! {

#[verifier::external_type_specification]
#[verifier::external_body]
#[verifier::reject_recursive_types(T)]
pub struct ExConsumer<T>(rtrb::Consumer<T>);

#[verifier::external_type_specification]
#[verifier::external_body]
#[verifier::reject_recursive_types(T)]
pub struct ExProducer<T>(rtrb::Producer<T>);

/// The samples that the consumer already knows to be readable, oldest first:
/// the slots between its head position and its cached copy of the tail.
pub uninterp spec fn readable_samples(consumer: rtrb::Consumer<u32>) -> Seq<u32>;

/// Takes the oldest sample out of the queue (`rtrb::Consumer::pop`).
///
/// Trusted contract: when the consumer already knows of readable samples, the
/// oldest of them is returned and removed. When it knows of none, `pop` refreshes
/// its view of the producer's position; if that still shows nothing, `None` comes
/// back and no sample is known to be readable. What `pop` returns when the refresh
/// finds samples that the producer pushed meanwhile is left unsaid.
#[verifier::external_body]
pub(crate) fn pop_sample(consumer: &mut rtrb::Consumer<u32>) -> (sample: Option<u32>)
    ensures
        readable_samples(*old(consumer)).len() > 0 ==> {
            &&& sample == Some(readable_samples(*old(consumer))[0])
            &&& readable_samples(*final(consumer)) == readable_samples(*old(consumer)).drop_first()
        },
        readable_samples(*old(consumer)).len() == 0 && sample is None ==> readable_samples(
            *final(consumer),
        ).len() == 0,
{
    consumer.pop().ok()
}

} // verus!

verus! {

/// The samples this producer has written into the queue, oldest first: each
/// successful push appends the pushed sample.
pub uninterp spec fn pushed_samples(producer: rtrb::Producer<u32>) -> Seq<u32>;

/// The number of samples the queue behind this producer holds at most, fixed when
/// the queue was made.
pub uninterp spec fn queue_capacity(producer: rtrb::Producer<u32>) -> nat;

/// Writes a sample at the end of the queue (`rtrb::Producer::push`).
///
/// Trusted contract: on success the sample is appended to what the producer has
/// written; on failure (the queue was full) nothing was written. Whether the queue
/// is full depends on the consumer thread, so which of the two happens is left
/// unsaid.
#[verifier::external_body]
pub(crate) fn push_sample(producer: &mut rtrb::Producer<u32>, sample: u32) -> (pushed: bool)
    ensures
        pushed ==> pushed_samples(*final(producer)) == pushed_samples(*old(producer)).push(sample),
        !pushed ==> pushed_samples(*final(producer)) == pushed_samples(*old(producer)),
        queue_capacity(*final(producer)) == queue_capacity(*old(producer)),
{
    producer.push(sample).is_ok()
}

/// A new queue with room for `capacity` samples (`rtrb::RingBuffer::new`).
///
/// Trusted contract: the producer has written nothing, the consumer knows of
/// nothing readable, and the queue holds `capacity` samples. `new` panics when the queue's size in bytes exceeds
/// `isize::MAX`, which `requires` rules out.
#[verifier::external_body]
pub(crate) fn new_sample_queue(capacity: usize) -> (queue: (rtrb::Producer<u32>, rtrb::Consumer<u32>))
    requires
        capacity <= isize::MAX / 4,
    ensures
        pushed_samples(queue.0).len() == 0,
        readable_samples(queue.1).len() == 0,
        queue_capacity(queue.0) == capacity,
{
    rtrb::RingBuffer::new(capacity)
}

/// Number of free slots in the queue (`rtrb::Producer::slots`).
///
/// Trusted contract: at most the queue's capacity; which number, the consumer thread
/// decides by freeing slots at any time.
#[verifier::external_body]
pub(crate) fn free_slots(producer: &rtrb::Producer<u32>) -> (slots: usize)
    ensures
        slots <= queue_capacity(*producer),
{
    producer.slots()
}

} // verus!
