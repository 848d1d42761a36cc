//! Audio playback: the lock-free sample ring (from `ringbuf`) between the
//! thread that feeds decoded audio and the audio device callback that drains
//! it, and the decisions taken on both of its ends.
//!
//! Samples travel through the ring as the bit patterns of 32-bit floating
//! point samples; the all-zero pattern is silence.

use vstd::prelude::*;
use vstd::slice::slice_subrange;

verus! {

/// A sample ring that has not been split into its two ends yet.
#[verifier::external_body]
pub struct SampleRing {
    inner: ringbuf::HeapRb<u32>,
}

/// The feeding end of a sample ring.
#[verifier::external_body]
pub struct SampleProducer {
    inner: ringbuf::HeapProducer<u32>,
}

/// The draining end of a sample ring.
#[verifier::external_body]
pub struct SampleConsumer {
    inner: ringbuf::HeapConsumer<u32>,
}

/// How many samples the ring holds at most (fixed when it is made).
pub uninterp spec fn ring_capacity(ring: SampleRing) -> nat;

/// Capacity of the ring that a feeding end belongs to.
pub uninterp spec fn producer_capacity(producer: SampleProducer) -> nat;

/// Capacity of the ring that a draining end belongs to.
pub uninterp spec fn consumer_capacity(consumer: SampleConsumer) -> nat;

/// Every sample a feeding end has appended to its ring so far, oldest first.
/// Only this end appends, so the other thread does not change it.
pub uninterp spec fn pushed_samples(producer: SampleProducer) -> Seq<u32>;

/// Every sample a draining end has removed from its ring so far, oldest
/// first.  Only this end removes, so the other thread does not change it.
pub uninterp spec fn popped_samples(consumer: SampleConsumer) -> Seq<u32>;

/// Calls `ringbuf::HeapRb::<u32>::new(capacity)`, which allocates an empty
/// ring of `capacity` slots (it panics on a zero capacity, which `requires`
/// leaves out).  What the ring holds is not named: once split, its two ends
/// are used from two threads.
#[verifier::external_body]
fn new_ring(capacity: usize) -> (ring: SampleRing)
    requires
        capacity > 0,
    ensures
        ring_capacity(ring) == capacity,
{
    SampleRing { inner: ringbuf::HeapRb::<u32>::new(capacity) }
}

/// Calls `ringbuf::SharedRb::split`, which moves the ring to the heap and
/// returns its feeding and its draining end; both report the ring's capacity,
/// and neither has moved a sample yet.
#[verifier::external_body]
fn split_ring(ring: SampleRing) -> (ends: (SampleProducer, SampleConsumer))
    ensures
        producer_capacity(ends.0) == ring_capacity(ring),
        consumer_capacity(ends.1) == ring_capacity(ring),
        pushed_samples(ends.0) == Seq::<u32>::empty(),
        popped_samples(ends.1) == Seq::<u32>::empty(),
{
    let (p, c) = ring.inner.split();
    (SampleProducer { inner: p }, SampleConsumer { inner: c })
}

/// Calls `ringbuf::Producer::push_slice`, which appends the longest prefix of
/// `samples` that fits into the free slots and returns its length.  How many
/// slots are free depends on the draining thread, but never fewer than the
/// capacity less every sample this end ever appended (the ring starts empty
/// and only this end appends): so all of `samples` goes in, or that many
/// slots are filled.  The samples appended are that prefix, in order.
#[verifier::external_body]
fn push_samples(producer: &mut SampleProducer, samples: &[u32]) -> (pushed: usize)
    ensures
        pushed <= samples@.len(),
        pushed == samples@.len() || pushed_samples(*old(producer)).len() + pushed
            >= producer_capacity(*old(producer)),
        pushed <= producer_capacity(*old(producer)),
        producer_capacity(*final(producer)) == producer_capacity(*old(producer)),
        pushed_samples(*final(producer)) == pushed_samples(*old(producer)) + samples@.subrange(
            0,
            pushed as int,
        ),
{
    producer.inner.push_slice(samples)
}

/// Calls `ringbuf::Consumer::pop_slice`, which removes the oldest samples of
/// the ring into the front of `out`, as many as are there and fit, and
/// returns their count; the rest of `out` is left as it was.  Which samples
/// are there depends on the feeding thread; what is stated is that the ones
/// written to the front of `out` are the ones this end removed, in order.
#[verifier::external_body]
fn pop_samples(consumer: &mut SampleConsumer, out: &mut [u32]) -> (popped: usize)
    ensures
        popped <= old(out)@.len(),
        popped <= consumer_capacity(*old(consumer)),
        final(out)@.len() == old(out)@.len(),
        forall|i: int| popped <= i < old(out)@.len() ==> #[trigger] final(out)@[i] == old(out)@[i],
        consumer_capacity(*final(consumer)) == consumer_capacity(*old(consumer)),
        popped_samples(*final(consumer)) == popped_samples(*old(consumer)) + final(out)@.subrange(
            0,
            popped as int,
        ),
{
    consumer.inner.pop_slice(out)
}

/// Number of samples in half a second of audio at `sample_rate` frames per
/// second with `channels` interleaved channels.
pub open spec fn half_second_of_samples(sample_rate: u32, channels: u16) -> int {
    (sample_rate as int * channels as int) / 2
}

/// Size of the sample ring: about half a second of audio.
pub fn sample_ring_capacity(sample_rate: u32, channels: u16) -> (capacity: usize)
    requires
        sample_rate as int * channels as int <= u32::MAX,
    ensures
        capacity == half_second_of_samples(sample_rate, channels),
        2 * capacity <= (sample_rate as int) * (channels as int) < 2 * capacity + 2,
{
    let samples_per_second: u32 = sample_rate * (channels as u32);
    (samples_per_second as usize) / 2
}

/// Creates the sample ring for audio at `sample_rate` with `channels`
/// channels and returns its two ends.  Both ends belong to a ring of half a
/// second of audio.
pub fn open_sample_ring(sample_rate: u32, channels: u16) -> (ends: (SampleProducer, SampleConsumer))
    requires
        sample_rate as int * channels as int <= u32::MAX,
        sample_rate as int * channels as int >= 2,
    ensures
        producer_capacity(ends.0) == half_second_of_samples(sample_rate, channels),
        consumer_capacity(ends.1) == half_second_of_samples(sample_rate, channels),
        pushed_samples(ends.0) == Seq::<u32>::empty(),
        popped_samples(ends.1) == Seq::<u32>::empty(),
{
    let capacity = sample_ring_capacity(sample_rate, channels);
    let ring = new_ring(capacity);
    split_ring(ring)
}

/// Where feeding one chunk of samples into the ring stands.
#[derive(Clone, Copy, PartialEq, Eq, Structural, Debug)]
pub enum FeedProgress {
    /// Every sample of the chunk is in the ring.
    Complete,
    /// The ring filled up; the samples from this position on still have to
    /// be pushed after waiting briefly.
    Pending(usize),
}

/// Where feeding a chunk of `chunk_len` samples stands once the samples
/// before `from` were in the ring and `pushed` more went in.
pub open spec fn feed_progress_after(chunk_len: int, from: int, pushed: int) -> FeedProgress {
    if from + pushed < chunk_len {
        FeedProgress::Pending((from + pushed) as usize)
    } else {
        FeedProgress::Complete
    }
}

/// Decides where feeding a chunk stands after a push: complete once every
/// sample is in, otherwise pending at the first sample not yet pushed.
pub fn feed_progress(chunk_len: usize, from: usize, pushed: usize) -> (progress: FeedProgress)
    requires
        from + pushed <= chunk_len,
    ensures
        progress == feed_progress_after(chunk_len as int, from as int, pushed as int),
{
    let next = from + pushed;
    if next < chunk_len {
        FeedProgress::Pending(next)
    } else {
        FeedProgress::Complete
    }
}

/// Pushes as many of the samples of `chunk` from position `from` on as fit
/// into the ring, and says where feeding the chunk stands.  How many fit
/// depends on the draining thread; whatever that number, the progress is the
/// one `feed_progress_after` gives for it.
pub fn feed_chunk(producer: &mut SampleProducer, chunk: &[u32], from: usize) -> (progress:
    FeedProgress)
    requires
        from <= chunk@.len(),
    ensures
        producer_capacity(*final(producer)) == producer_capacity(*old(producer)),
        exists|pushed: int|
            0 <= pushed <= chunk@.len() - from && pushed <= producer_capacity(*old(producer))
                && progress == #[trigger] feed_progress_after(chunk@.len() as int, from as int, pushed)
                && pushed_samples(*final(producer)) == pushed_samples(*old(producer))
                + chunk@.subrange(from as int, from + pushed)
                && (pushed == chunk@.len() - from || pushed_samples(*old(producer)).len() + pushed
                >= producer_capacity(*old(producer))),
        pushed_samples(*old(producer)).len() + (chunk@.len() - from) <= producer_capacity(
            *old(producer),
        ) ==> progress == FeedProgress::Complete,
{
    let len = chunk.len();
    let rest = slice_subrange(chunk, from, len);
    let pushed = push_samples(producer, rest);
    let progress = feed_progress(len, from, pushed);
    assert(feed_progress_after(chunk@.len() as int, from as int, pushed as int) == progress);
    assert(rest@.subrange(0, pushed as int) =~= chunk@.subrange(from as int, from + pushed));
    progress
}

/// Feeding never goes backwards and never runs past the chunk: a pending
/// position lies after the previous one and before the end, and a chunk
/// whose every sample is already in the ring is complete whatever is pushed.
pub proof fn lemma_feed_progress_bounds(chunk_len: int, from: int, pushed: int)
    requires
        0 <= from <= chunk_len,
        0 <= pushed <= chunk_len - from,
        chunk_len <= usize::MAX,
    ensures
        match feed_progress_after(chunk_len, from, pushed) {
            FeedProgress::Pending(next) => from <= next < chunk_len && next == from + pushed,
            FeedProgress::Complete => from + pushed == chunk_len,
        },
        from == chunk_len ==> feed_progress_after(chunk_len, from, pushed) == FeedProgress::Complete,
{
}

/// What one device callback took out of the ring.
#[derive(Clone, Copy, PartialEq, Eq, Structural, Debug)]
pub struct RenderedOutput {
    /// Samples taken from the ring into the front of the device buffer.
    pub samples: usize,
    /// Whole frames (one sample per channel) those samples make up; the
    /// audio clock advances by this many frames.
    pub frames: u64,
}

/// Fills a device buffer: the front with the oldest samples of the ring, the
/// rest, when the ring runs dry, with silence.  Returns how many samples came
/// from the ring and how many whole frames they make.
pub fn render_output(consumer: &mut SampleConsumer, out: &mut [u32], channels: u16) -> (rendered:
    RenderedOutput)
    requires
        channels > 0,
    ensures
        final(out)@.len() == old(out)@.len(),
        rendered.samples <= old(out)@.len(),
        rendered.samples <= consumer_capacity(*old(consumer)),
        rendered.frames == rendered.samples as int / channels as int,
        forall|i: int| rendered.samples <= i < old(out)@.len() ==> #[trigger] final(out)@[i] == 0u32,
        consumer_capacity(*final(consumer)) == consumer_capacity(*old(consumer)),
        popped_samples(*final(consumer)) == popped_samples(*old(consumer)) + final(out)@.subrange(
            0,
            rendered.samples as int,
        ),
{
    let read = pop_samples(consumer, out);
    let ghost taken = out@.subrange(0, read as int);
    let len = out.len();
    let mut i: usize = read;
    while i < len
        invariant
            read <= i <= len,
            len == out@.len(),
            out@.subrange(0, read as int) == taken,
            forall|k: int| read <= k < i ==> #[trigger] out@[k] == 0u32,
        decreases len - i,
    {
        out[i] = 0u32;
        assert(out@.subrange(0, read as int) =~= taken);
        i = i + 1;
    }
    let frames = (read / (channels as usize)) as u64;
    RenderedOutput { samples: read, frames }
}

} // verus!
