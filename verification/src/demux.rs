//! Demultiplexing: which elementary stream of the container each packet
//! belongs to, the two packet queues that feed the decoders, and the lookup
//! of the selected streams among the container's streams.
//!
//! A presentation timestamp (PTS) is an integer tick count attached to every
//! packet and frame; it is turned into seconds with the time base of the
//! stream it belongs to: `seconds = pts * numerator / denominator`.

use vstd::prelude::*;
use crate::channel::{bounded_queue, send_to_queue};
use crossbeam_channel::{Receiver, Sender};

verus! {

/// Capacity of the queue of compressed video packets; bounding it keeps the
/// demuxer from reading the whole file into memory ahead of the decoder.
pub const VIDEO_PACKET_QUEUE_CAPACITY: usize = 128;

/// Capacity of the queue of compressed audio packets.
pub const AUDIO_PACKET_QUEUE_CAPACITY: usize = 256;

/// The two kinds of elementary stream the player consumes.
#[derive(Clone, Copy, PartialEq, Eq, Structural, Debug)]
pub enum MediaKind {
    Video,
    Audio,
}

/// Where a demuxed packet goes.
#[derive(Clone, Copy, PartialEq, Eq, Structural, Debug)]
pub enum PacketRoute {
    /// To the video packet queue.
    Video,
    /// To the audio packet queue.
    Audio,
    /// Nowhere: the packet belongs to a stream the player does not play.
    Discard,
}

/// The route of a packet of stream `stream_index`, given the selected video
/// and audio streams.  The video stream is checked first.
pub open spec fn packet_route(
    stream_index: usize,
    video_stream_index: Option<usize>,
    audio_stream_index: Option<usize>,
) -> PacketRoute {
    if video_stream_index == Some(stream_index) {
        PacketRoute::Video
    } else if audio_stream_index == Some(stream_index) {
        PacketRoute::Audio
    } else {
        PacketRoute::Discard
    }
}

/// Decides where a packet of stream `stream_index` goes.
pub fn route_packet(
    stream_index: usize,
    video_stream_index: Option<usize>,
    audio_stream_index: Option<usize>,
) -> (route: PacketRoute)
    ensures
        route == packet_route(stream_index, video_stream_index, audio_stream_index),
{
    match video_stream_index {
        Some(v) if v == stream_index => {
            return PacketRoute::Video;
        },
        _ => {},
    }
    match audio_stream_index {
        Some(a) if a == stream_index => PacketRoute::Audio,
        _ => PacketRoute::Discard,
    }
}

/// What became of a packet handed to the router.
#[derive(Clone, Copy, PartialEq, Eq, Structural, Debug)]
pub enum DispatchOutcome {
    /// The packet was queued for the decoder of that kind.
    Queued(MediaKind),
    /// The packet belongs to no selected stream and was dropped.
    Discarded,
    /// The decoder of that kind has gone away; demuxing should stop.
    Disconnected(MediaKind),
}

/// Whether demuxing goes on after a packet with this outcome.
pub open spec fn continues_after(outcome: DispatchOutcome) -> bool {
    !(outcome is Disconnected)
}

impl DispatchOutcome {
    /// Whether demuxing goes on after this outcome: it stops once a decoder
    /// has gone away.
    pub fn keeps_demuxing(&self) -> (go_on: bool)
        ensures
            go_on == continues_after(*self),
            go_on <==> !(*self is Disconnected),
    {
        match self {
            DispatchOutcome::Disconnected(_) => false,
            _ => true,
        }
    }
}

/// Demuxing goes on after every queued or discarded packet and stops exactly
/// after a packet whose decoder has gone away.
pub proof fn lemma_demuxing_stops_only_on_disconnect(kind: MediaKind)
    ensures
        continues_after(DispatchOutcome::Queued(kind)),
        continues_after(DispatchOutcome::Discarded),
        !continues_after(DispatchOutcome::Disconnected(kind)),
{
}

/// Every packet goes to at most one queue: to the video queue exactly when it
/// belongs to the selected video stream, to the audio queue exactly when it
/// belongs to the selected audio stream and not to the selected video stream,
/// and nowhere otherwise.
pub proof fn lemma_packet_route_cases(
    stream_index: usize,
    video_stream_index: Option<usize>,
    audio_stream_index: Option<usize>,
)
    ensures
        (packet_route(stream_index, video_stream_index, audio_stream_index) == PacketRoute::Video)
            <==> video_stream_index == Some(stream_index),
        (packet_route(stream_index, video_stream_index, audio_stream_index) == PacketRoute::Audio)
            <==> (audio_stream_index == Some(stream_index) && video_stream_index != Some(
            stream_index,
        )),
        (packet_route(stream_index, video_stream_index, audio_stream_index)
            == PacketRoute::Discard) <==> (video_stream_index != Some(stream_index)
            && audio_stream_index != Some(stream_index)),
{
}

/// A rational number as container formats use it for time bases.
#[derive(Clone, Copy, PartialEq, Eq, Structural, Debug)]
pub struct Rational {
    pub numerator: i32,
    pub denominator: i32,
}

/// Why a selected stream could not be looked up.
#[derive(Clone, Copy, PartialEq, Eq, Structural, Debug)]
pub enum DemuxError {
    /// The container has no stream of that kind.
    NoStream(MediaKind),
    /// A stream of that kind was selected, but the container opened for the
    /// lookup does not have that many streams.
    StreamNotFound(MediaKind),
}

/// The result of looking up the stream selected for `kind` among
/// `stream_count` streams: its index when it exists.
pub open spec fn stream_lookup(
    selected: Option<usize>,
    kind: MediaKind,
    stream_count: nat,
) -> Result<usize, DemuxError> {
    match selected {
        None => Err(DemuxError::NoStream(kind)),
        Some(index) => if index < stream_count {
            Ok(index)
        } else {
            Err(DemuxError::StreamNotFound(kind))
        },
    }
}

fn lookup_stream(selected: Option<usize>, kind: MediaKind, stream_count: usize) -> (found: Result<
    usize,
    DemuxError,
>)
    ensures
        found == stream_lookup(selected, kind, stream_count as nat),
{
    match selected {
        None => Err(DemuxError::NoStream(kind)),
        Some(index) => if index < stream_count {
            Ok(index)
        } else {
            Err(DemuxError::StreamNotFound(kind))
        },
    }
}

/// The time base of the stream selected for `kind`, given the time base of
/// every stream of the container in stream order.
pub open spec fn time_base_lookup(
    selected: Option<usize>,
    kind: MediaKind,
    time_bases: Seq<Rational>,
) -> Result<Rational, DemuxError> {
    match stream_lookup(selected, kind, time_bases.len()) {
        Ok(index) => Ok(time_bases[index as int]),
        Err(e) => Err(e),
    }
}

fn lookup_time_base(selected: Option<usize>, kind: MediaKind, time_bases: &[Rational]) -> (tb: Result<
    Rational,
    DemuxError,
>)
    ensures
        tb == time_base_lookup(selected, kind, time_bases@),
{
    match lookup_stream(selected, kind, time_bases.len()) {
        Ok(index) => Ok(time_bases[index]),
        Err(e) => Err(e),
    }
}

/// A stream lookup finds the selected stream itself when the container has
/// it, reports a missing selection as `NoStream` and a selection past the
/// container's streams as `StreamNotFound`, for either kind.
pub proof fn lemma_stream_lookup_finds_selected(selected: Option<usize>, kind: MediaKind, stream_count: nat)
    ensures
        match selected {
            None => stream_lookup(selected, kind, stream_count) == Err::<usize, DemuxError>(
                DemuxError::NoStream(kind),
            ),
            Some(i) => {
                &&& i < stream_count ==> stream_lookup(selected, kind, stream_count) == Ok::<
                    usize,
                    DemuxError,
                >(i)
                &&& i >= stream_count ==> stream_lookup(selected, kind, stream_count) == Err::<
                    usize,
                    DemuxError,
                >(DemuxError::StreamNotFound(kind))
            },
        },
{
}

/// A time base lookup gives the time base of the selected stream itself.
pub proof fn lemma_time_base_is_selected_streams(
    selected: Option<usize>,
    kind: MediaKind,
    time_bases: Seq<Rational>,
)
    ensures
        match selected {
            None => time_base_lookup(selected, kind, time_bases) == Err::<Rational, DemuxError>(
                DemuxError::NoStream(kind),
            ),
            Some(i) => {
                &&& i < time_bases.len() ==> time_base_lookup(selected, kind, time_bases) == Ok::<
                    Rational,
                    DemuxError,
                >(time_bases[i as int])
                &&& i >= time_bases.len() ==> time_base_lookup(selected, kind, time_bases) == Err::<
                    Rational,
                    DemuxError,
                >(DemuxError::StreamNotFound(kind))
            },
        },
{
}

/// The time base lookup and the decoder lookup agree: the time base is found
/// exactly when the decoder's stream is, and it is that stream's time base.
pub proof fn lemma_time_base_matches_decoder_stream(
    selected: Option<usize>,
    kind: MediaKind,
    time_bases: Seq<Rational>,
)
    ensures
        match stream_lookup(selected, kind, time_bases.len()) {
            Ok(index) => time_base_lookup(selected, kind, time_bases) == Ok::<Rational, DemuxError>(
                time_bases[index as int],
            ),
            Err(e) => time_base_lookup(selected, kind, time_bases) == Err::<Rational, DemuxError>(e),
        },
{
}

/// The receiving side of demuxing: one packet queue per kind and the
/// streams whose packets they carry.
#[verifier::reject_recursive_types(P)]
pub struct Demuxer<P> {
    pub video_rx: Receiver<P>,
    pub audio_rx: Receiver<P>,
    pub video_stream_index: Option<usize>,
    pub audio_stream_index: Option<usize>,
    /// How many packets the video packet queue holds at most: the capacity
    /// it was made with, recorded beside `video_rx` (not read back from it).
    pub video_queue_capacity: usize,
    /// How many packets the audio packet queue holds at most: the capacity
    /// it was made with, recorded beside `audio_rx` (not read back from it).
    pub audio_queue_capacity: usize,
}

/// The sending side of demuxing, driven by the thread that reads packets
/// out of the container.
#[verifier::reject_recursive_types(P)]
pub struct PacketRouter<P> {
    video_tx: Sender<P>,
    audio_tx: Sender<P>,
    video_stream_index: Option<usize>,
    audio_stream_index: Option<usize>,
}

impl<P> PacketRouter<P> {
    pub closed spec fn video_stream(&self) -> Option<usize> {
        self.video_stream_index
    }

    pub closed spec fn audio_stream(&self) -> Option<usize> {
        self.audio_stream_index
    }

    /// The sending end of the video packet queue.
    pub closed spec fn video_queue(&self) -> Sender<P> {
        self.video_tx
    }

    /// The sending end of the audio packet queue.
    pub closed spec fn audio_queue(&self) -> Sender<P> {
        self.audio_tx
    }

    /// The sending end of the packet queue of `kind`.
    pub fn queue_for(&self, kind: MediaKind) -> (tx: &Sender<P>)
        ensures
            kind == MediaKind::Video ==> *tx == self.video_queue(),
            kind == MediaKind::Audio ==> *tx == self.audio_queue(),
    {
        match kind {
            MediaKind::Video => &self.video_tx,
            MediaKind::Audio => &self.audio_tx,
        }
    }

    /// Hands a packet of stream `stream_index` to the queue it belongs to.
    /// A packet of an unselected stream is dropped; a packet whose decoder
    /// has gone away is reported as such.
    pub fn dispatch(&self, stream_index: usize, packet: P) -> (outcome: DispatchOutcome)
        ensures
            match packet_route(stream_index, self.video_stream(), self.audio_stream()) {
                PacketRoute::Video => outcome == DispatchOutcome::Queued(MediaKind::Video)
                    || outcome == DispatchOutcome::Disconnected(MediaKind::Video),
                PacketRoute::Audio => outcome == DispatchOutcome::Queued(MediaKind::Audio)
                    || outcome == DispatchOutcome::Disconnected(MediaKind::Audio),
                PacketRoute::Discard => outcome == DispatchOutcome::Discarded,
            },
    {
        let kind = match route_packet(stream_index, self.video_stream_index, self.audio_stream_index) {
            PacketRoute::Video => MediaKind::Video,
            PacketRoute::Audio => MediaKind::Audio,
            PacketRoute::Discard => {
                return DispatchOutcome::Discarded;
            },
        };
        let tx = self.queue_for(kind);
        if send_to_queue(tx, packet) {
            DispatchOutcome::Queued(kind)
        } else {
            DispatchOutcome::Disconnected(kind)
        }
    }
}

impl<P> Demuxer<P> {
    /// Creates the two packet queues for the selected streams and returns
    /// their receiving side together with the router that fills them.
    pub fn new(video_stream_index: Option<usize>, audio_stream_index: Option<usize>) -> (res: (
        Demuxer<P>,
        PacketRouter<P>,
    ))
        ensures
            res.0.video_stream_index == video_stream_index,
            res.0.audio_stream_index == audio_stream_index,
            res.1.video_stream() == video_stream_index,
            res.1.audio_stream() == audio_stream_index,
            res.0.video_queue_capacity == VIDEO_PACKET_QUEUE_CAPACITY,
            res.0.audio_queue_capacity == AUDIO_PACKET_QUEUE_CAPACITY,
    {
        let video = bounded_queue(VIDEO_PACKET_QUEUE_CAPACITY);
        let audio = bounded_queue(AUDIO_PACKET_QUEUE_CAPACITY);
        (
            Demuxer {
                video_rx: video.rx,
                audio_rx: audio.rx,
                video_stream_index,
                audio_stream_index,
                video_queue_capacity: video.capacity,
                audio_queue_capacity: audio.capacity,
            },
            PacketRouter {
                video_tx: video.tx,
                audio_tx: audio.tx,
                video_stream_index,
                audio_stream_index,
            },
        )
    }

    /// The index of the stream to open the video decoder on, given the
    /// number of streams of the container.
    pub fn video_decoder(&self, stream_count: usize) -> (index: Result<usize, DemuxError>)
        ensures
            index == stream_lookup(self.video_stream_index, MediaKind::Video, stream_count as nat),
            match self.video_stream_index {
                None => index == Err::<usize, DemuxError>(DemuxError::NoStream(MediaKind::Video)),
                Some(i) => (i < stream_count ==> index == Ok::<usize, DemuxError>(i)) && (i
                    >= stream_count ==> index == Err::<usize, DemuxError>(
                    DemuxError::StreamNotFound(MediaKind::Video),
                )),
            },
    {
        proof {
            lemma_stream_lookup_finds_selected(self.video_stream_index, MediaKind::Video, stream_count as nat);
        }
        lookup_stream(self.video_stream_index, MediaKind::Video, stream_count)
    }

    /// The time base of the video stream, given the time base of every
    /// stream of the container in stream order.
    pub fn video_time_base(&self, time_bases: &[Rational]) -> (tb: Result<Rational, DemuxError>)
        ensures
            tb == time_base_lookup(self.video_stream_index, MediaKind::Video, time_bases@),
            match self.video_stream_index {
                None => tb == Err::<Rational, DemuxError>(DemuxError::NoStream(MediaKind::Video)),
                Some(i) => (i < time_bases@.len() ==> tb == Ok::<Rational, DemuxError>(
                    time_bases@[i as int],
                )) && (i >= time_bases@.len() ==> tb == Err::<Rational, DemuxError>(
                    DemuxError::StreamNotFound(MediaKind::Video),
                )),
            },
    {
        proof {
            lemma_time_base_is_selected_streams(self.video_stream_index, MediaKind::Video, time_bases@);
        }
        lookup_time_base(self.video_stream_index, MediaKind::Video, time_bases)
    }

    /// The index of the stream to open the audio decoder on, given the
    /// number of streams of the container.
    pub fn audio_decoder(&self, stream_count: usize) -> (index: Result<usize, DemuxError>)
        ensures
            index == stream_lookup(self.audio_stream_index, MediaKind::Audio, stream_count as nat),
            match self.audio_stream_index {
                None => index == Err::<usize, DemuxError>(DemuxError::NoStream(MediaKind::Audio)),
                Some(i) => (i < stream_count ==> index == Ok::<usize, DemuxError>(i)) && (i
                    >= stream_count ==> index == Err::<usize, DemuxError>(
                    DemuxError::StreamNotFound(MediaKind::Audio),
                )),
            },
    {
        proof {
            lemma_stream_lookup_finds_selected(self.audio_stream_index, MediaKind::Audio, stream_count as nat);
        }
        lookup_stream(self.audio_stream_index, MediaKind::Audio, stream_count)
    }

    /// The time base of the audio stream, given the time base of every
    /// stream of the container in stream order.
    pub fn audio_time_base(&self, time_bases: &[Rational]) -> (tb: Result<Rational, DemuxError>)
        ensures
            tb == time_base_lookup(self.audio_stream_index, MediaKind::Audio, time_bases@),
            match self.audio_stream_index {
                None => tb == Err::<Rational, DemuxError>(DemuxError::NoStream(MediaKind::Audio)),
                Some(i) => (i < time_bases@.len() ==> tb == Ok::<Rational, DemuxError>(
                    time_bases@[i as int],
                )) && (i >= time_bases@.len() ==> tb == Err::<Rational, DemuxError>(
                    DemuxError::StreamNotFound(MediaKind::Audio),
                )),
            },
    {
        proof {
            lemma_time_base_is_selected_streams(self.audio_stream_index, MediaKind::Audio, time_bases@);
        }
        lookup_time_base(self.audio_stream_index, MediaKind::Audio, time_bases)
    }
}

} // verus!
