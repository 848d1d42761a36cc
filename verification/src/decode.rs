//! The decoding stage: the control flow shared by the video and the audio
//! decoder threads, the queues that carry their output, and the pieces of
//! audio preparation that are plain data handling.

use vstd::prelude::*;
use crate::channel::{bounded_queue, send_to_queue};
use crossbeam_channel::{Receiver, Sender};

verus! {

/// Capacity of the queue of decoded, display-ready pictures.
pub const DECODED_FRAME_QUEUE_CAPACITY: usize = 30;

/// Capacity of the queue of decoded, resampled audio chunks.
pub const DECODED_AUDIO_QUEUE_CAPACITY: usize = 60;

/// The next thing a decoder thread does.
///
/// A decoder thread first sets up its converter (the picture scaler or the
/// audio resampler), then repeatedly takes a compressed packet, submits it to
/// the codec and drains every frame the codec yields: each frame is converted
/// and the converted result is delivered downstream.
#[derive(Clone, Copy, PartialEq, Eq, Structural, Debug)]
pub enum DecodeStep {
    SetUpConverter,
    ReceivePacket,
    SubmitPacket,
    ReceiveFrame,
    ConvertFrame,
    DeliverFrame,
    Finished,
}

/// The step that follows `step` when it succeeded (`ok`) or failed.
///
/// * Without a converter, or once the packet queue is closed, or once the
///   consumer of the output has gone away, the thread finishes.
/// * A packet the codec refuses is skipped.
/// * When the codec has no more frames, the next packet is taken.
/// * A frame that cannot be converted is skipped.
pub open spec fn decode_transition(step: DecodeStep, ok: bool) -> DecodeStep {
    match step {
        DecodeStep::SetUpConverter => if ok {
            DecodeStep::ReceivePacket
        } else {
            DecodeStep::Finished
        },
        DecodeStep::ReceivePacket => if ok {
            DecodeStep::SubmitPacket
        } else {
            DecodeStep::Finished
        },
        DecodeStep::SubmitPacket => if ok {
            DecodeStep::ReceiveFrame
        } else {
            DecodeStep::ReceivePacket
        },
        DecodeStep::ReceiveFrame => if ok {
            DecodeStep::ConvertFrame
        } else {
            DecodeStep::ReceivePacket
        },
        DecodeStep::ConvertFrame => if ok {
            DecodeStep::DeliverFrame
        } else {
            DecodeStep::ReceiveFrame
        },
        DecodeStep::DeliverFrame => if ok {
            DecodeStep::ReceiveFrame
        } else {
            DecodeStep::Finished
        },
        DecodeStep::Finished => DecodeStep::Finished,
    }
}

/// Decides the next step of a decoder thread from the outcome of the
/// current one.
pub fn next_decode_step(step: DecodeStep, ok: bool) -> (next: DecodeStep)
    ensures
        next == decode_transition(step, ok),
{
    match step {
        DecodeStep::SetUpConverter => if ok {
            DecodeStep::ReceivePacket
        } else {
            DecodeStep::Finished
        },
        DecodeStep::ReceivePacket => if ok {
            DecodeStep::SubmitPacket
        } else {
            DecodeStep::Finished
        },
        DecodeStep::SubmitPacket => if ok {
            DecodeStep::ReceiveFrame
        } else {
            DecodeStep::ReceivePacket
        },
        DecodeStep::ReceiveFrame => if ok {
            DecodeStep::ConvertFrame
        } else {
            DecodeStep::ReceivePacket
        },
        DecodeStep::ConvertFrame => if ok {
            DecodeStep::DeliverFrame
        } else {
            DecodeStep::ReceiveFrame
        },
        DecodeStep::DeliverFrame => if ok {
            DecodeStep::ReceiveFrame
        } else {
            DecodeStep::Finished
        },
        DecodeStep::Finished => DecodeStep::Finished,
    }
}

/// The step reached from `step` after steps with the given outcomes.
pub open spec fn decode_run(step: DecodeStep, outcomes: Seq<bool>) -> DecodeStep
    decreases outcomes.len(),
{
    if outcomes.len() == 0 {
        step
    } else {
        decode_run(decode_transition(step, outcomes[0]), outcomes.drop_first())
    }
}

/// Once a decoder thread has finished it does nothing more, whatever
/// happens.
pub proof fn lemma_finished_is_final(outcomes: Seq<bool>)
    ensures
        decode_run(DecodeStep::Finished, outcomes) == DecodeStep::Finished,
    decreases outcomes.len(),
{
    if outcomes.len() > 0 {
        lemma_finished_is_final(outcomes.drop_first());
    }
}

/// A decoder thread stops only for one of three reasons: its converter
/// could not be set up, its packet queue was closed, or the consumer of its
/// output went away.  A refused packet or an unconvertible frame never stops
/// it.
pub proof fn lemma_stops_only_when_cut_off(step: DecodeStep, ok: bool)
    requires
        step != DecodeStep::Finished,
        decode_transition(step, ok) == DecodeStep::Finished,
    ensures
        !ok,
        step == DecodeStep::SetUpConverter || step == DecodeStep::ReceivePacket || step
            == DecodeStep::DeliverFrame,
{
}

/// A frame is delivered only right after it was converted, and converted
/// only right after the codec produced it.
pub proof fn lemma_delivery_follows_conversion(step: DecodeStep, ok: bool)
    ensures
        decode_transition(step, ok) == DecodeStep::DeliverFrame ==> step == DecodeStep::ConvertFrame
            && ok,
        decode_transition(step, ok) == DecodeStep::ConvertFrame ==> step == DecodeStep::ReceiveFrame
            && ok,
{
}

/// As long as every step succeeds, a decoder thread never finishes.
pub proof fn lemma_runs_while_all_succeed(step: DecodeStep, outcomes: Seq<bool>)
    requires
        step != DecodeStep::Finished,
        forall|i: int| 0 <= i < outcomes.len() ==> #[trigger] outcomes[i],
    ensures
        decode_run(step, outcomes) != DecodeStep::Finished,
    decreases outcomes.len(),
{
    if outcomes.len() > 0 {
        assert(outcomes[0]);
        let rest = outcomes.drop_first();
        assert forall|i: int| 0 <= i < rest.len() implies #[trigger] rest[i] by {
            assert(rest[i] == outcomes[i + 1]);
        }
        lemma_runs_while_all_succeed(decode_transition(step, outcomes[0]), rest);
    }
}

/// The sending end of a decoder's output queue.
#[verifier::reject_recursive_types(T)]
pub struct DecodedSink<T> {
    tx: Sender<T>,
}

impl<T> DecodedSink<T> {
    /// Hands a converted frame downstream, waiting for room in the queue.
    /// Returns whether it was handed over; it is not when the consumer has
    /// gone away.
    pub fn deliver(&self, item: T) -> (delivered: bool) {
        send_to_queue(&self.tx, item)
    }
}

/// The receiving end of the queue of decoded pictures.
#[verifier::reject_recursive_types(F)]
pub struct VideoDecoder<F> {
    pub frame_rx: Receiver<F>,
    frame_queue_capacity: usize,
}

impl<F> VideoDecoder<F> {
    /// How many decoded pictures the queue holds at most: the capacity the
    /// queue was made with, recorded beside its receiving end (not read back
    /// from it).
    pub closed spec fn queue_capacity(&self) -> nat {
        self.frame_queue_capacity as nat
    }

    /// Creates the queue of decoded pictures, holding at most
    /// `DECODED_FRAME_QUEUE_CAPACITY` of them.
    pub fn new() -> (res: (VideoDecoder<F>, DecodedSink<F>))
        ensures
            res.0.queue_capacity() == DECODED_FRAME_QUEUE_CAPACITY,
    {
        let ends = bounded_queue(DECODED_FRAME_QUEUE_CAPACITY);
        (
            VideoDecoder { frame_rx: ends.rx, frame_queue_capacity: ends.capacity },
            DecodedSink { tx: ends.tx },
        )
    }
}

/// The receiving end of the queue of decoded audio chunks.
#[verifier::reject_recursive_types(C)]
pub struct AudioDecoder<C> {
    pub audio_rx: Receiver<C>,
    audio_queue_capacity: usize,
}

impl<C> AudioDecoder<C> {
    /// How many decoded audio chunks the queue holds at most: the capacity
    /// the queue was made with, recorded beside its receiving end (not read
    /// back from it).
    pub closed spec fn queue_capacity(&self) -> nat {
        self.audio_queue_capacity as nat
    }

    /// Creates the queue of decoded audio chunks, holding at most
    /// `DECODED_AUDIO_QUEUE_CAPACITY` of them.
    pub fn new() -> (res: (AudioDecoder<C>, DecodedSink<C>))
        ensures
            res.0.queue_capacity() == DECODED_AUDIO_QUEUE_CAPACITY,
    {
        let ends = bounded_queue(DECODED_AUDIO_QUEUE_CAPACITY);
        (
            AudioDecoder { audio_rx: ends.rx, audio_queue_capacity: ends.capacity },
            DecodedSink { tx: ends.tx },
        )
    }
}

/// Speaker layout the audio is resampled to.
#[derive(Clone, Copy, PartialEq, Eq, Structural, Debug)]
pub enum ChannelLayout {
    Mono,
    Stereo,
}

/// One output channel is played as mono; any other count as stereo.
pub fn target_channel_layout(channels: u16) -> (layout: ChannelLayout)
    ensures
        layout == (if channels == 1 {
            ChannelLayout::Mono
        } else {
            ChannelLayout::Stereo
        }),
{
    if channels == 1 {
        ChannelLayout::Mono
    } else {
        ChannelLayout::Stereo
    }
}

/// Number of whole samples taken from a plane of `byte_len` bytes when
/// `sample_count` samples are wanted: all of them when the plane holds them,
/// otherwise as many whole four-byte samples as it holds.
pub open spec fn framed_sample_total(byte_len: int, sample_count: int) -> int {
    if sample_count <= byte_len / 4 {
        sample_count
    } else {
        byte_len / 4
    }
}

/// Splits the first `sample_count` samples of a packed 32-bit sample plane
/// into one four-byte word per sample, in memory order.  Bytes past those
/// samples (the plane's padding) are not samples and are left out; a plane
/// too short for `sample_count` samples yields the whole samples it holds.
pub fn packed_sample_words(bytes: &[u8], sample_count: usize) -> (words: Vec<[u8; 4]>)
    ensures
        words@.len() == framed_sample_total(bytes@.len() as int, sample_count as int),
        4 * sample_count <= bytes@.len() ==> words@.len() == sample_count,
        forall|i: int|
            0 <= i < words@.len() ==> #[trigger] words@[i]@ == bytes@.subrange(4 * i, 4 * i + 4),
{
    let len = bytes.len();
    let whole = len / 4;
    let count = if sample_count <= whole {
        sample_count
    } else {
        whole
    };
    let mut words: Vec<[u8; 4]> = Vec::new();
    let mut i: usize = 0;
    while i < count
        invariant
            len == bytes@.len(),
            count <= len / 4,
            i <= count,
            words@.len() == i,
            forall|k: int|
                0 <= k < i ==> #[trigger] words@[k]@ == bytes@.subrange(4 * k, 4 * k + 4),
        decreases count - i,
    {
        assert(4 * i + 3 < len);
        let word: [u8; 4] = [bytes[4 * i], bytes[4 * i + 1], bytes[4 * i + 2], bytes[4 * i + 3]];
        assert(word@ =~= bytes@.subrange(4 * i as int, 4 * i + 4));
        words.push(word);
        i = i + 1;
    }
    words
}

} // verus!
