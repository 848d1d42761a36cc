use rust_video_player::decode::{
    next_decode_step, packed_sample_words, target_channel_layout, AudioDecoder, ChannelLayout,
    DecodeStep, VideoDecoder, DECODED_AUDIO_QUEUE_CAPACITY, DECODED_FRAME_QUEUE_CAPACITY,
};
use rust_video_player::demux::{
    route_packet, DemuxError, Demuxer, DispatchOutcome, MediaKind, PacketRoute, Rational,
    AUDIO_PACKET_QUEUE_CAPACITY, VIDEO_PACKET_QUEUE_CAPACITY,
};
use rust_video_player::pixels::{display_size, framebuffer_pixel_count, DISPLAY_SCALE};
use rust_video_player::playback::{
    feed_chunk, feed_progress, open_sample_ring, render_output, sample_ring_capacity, FeedProgress,
};
use rust_video_player::rgb24_to_u32_buffer;

#[test]
fn rgb24_packs_red_green_blue() {
    let buf = rgb24_to_u32_buffer(&[0x12, 0x34, 0x56, 0xff, 0x00, 0x80], 2);
    assert_eq!(buf, vec![0x0012_3456, 0x00ff_0080]);
}

#[test]
fn rgb24_pads_missing_pixels_with_black() {
    let buf = rgb24_to_u32_buffer(&[1, 2, 3], 4);
    assert_eq!(buf, vec![0x0001_0203, 0, 0, 0]);
}

#[test]
fn rgb24_ignores_extra_pixels_and_partial_triple() {
    let buf = rgb24_to_u32_buffer(&[1, 2, 3, 4, 5, 6, 7, 8], 1);
    assert_eq!(buf, vec![0x0001_0203]);
    let buf = rgb24_to_u32_buffer(&[9, 9, 9, 7, 8], 2);
    assert_eq!(buf, vec![0x0009_0909, 0]);
}

#[test]
fn rgb24_empty_inputs() {
    assert_eq!(rgb24_to_u32_buffer(&[], 0), Vec::<u32>::new());
    assert_eq!(rgb24_to_u32_buffer(&[], 2), vec![0, 0]);
    assert_eq!(rgb24_to_u32_buffer(&[1, 2, 3], 0), Vec::<u32>::new());
}

#[test]
fn rgb24_channels_round_trip() {
    let buf = rgb24_to_u32_buffer(&[200, 100, 50], 1);
    let p = buf[0];
    assert_eq!((p >> 16) & 0xff, 200);
    assert_eq!((p >> 8) & 0xff, 100);
    assert_eq!(p & 0xff, 50);
    assert!(p < 0x0100_0000);
}

#[test]
fn display_is_three_times_the_picture() {
    assert_eq!(DISPLAY_SCALE, 3);
    assert_eq!(display_size(640, 360), (1920, 1080));
    assert_eq!(framebuffer_pixel_count(1920, 1080), 2_073_600);
    assert_eq!(framebuffer_pixel_count(0, 1080), 0);
}

#[test]
fn video_stream_takes_precedence() {
    assert_eq!(route_packet(0, Some(0), Some(1)), PacketRoute::Video);
    assert_eq!(route_packet(1, Some(0), Some(1)), PacketRoute::Audio);
    assert_eq!(route_packet(2, Some(0), Some(1)), PacketRoute::Discard);
    assert_eq!(route_packet(3, Some(3), Some(3)), PacketRoute::Video);
    assert_eq!(route_packet(0, None, None), PacketRoute::Discard);
    assert_eq!(route_packet(5, None, Some(5)), PacketRoute::Audio);
}

#[test]
fn router_queues_packets_by_stream() {
    let (demuxer, router) = Demuxer::<u32>::new(Some(0), Some(1));
    assert_eq!(demuxer.video_stream_index, Some(0));
    assert_eq!(demuxer.audio_stream_index, Some(1));
    assert_eq!(router.dispatch(0, 10), DispatchOutcome::Queued(MediaKind::Video));
    assert_eq!(router.dispatch(1, 11), DispatchOutcome::Queued(MediaKind::Audio));
    assert_eq!(router.dispatch(2, 12), DispatchOutcome::Discarded);
    assert_eq!(demuxer.video_rx.try_recv(), Ok(10));
    assert_eq!(demuxer.audio_rx.try_recv(), Ok(11));
    assert!(demuxer.video_rx.try_recv().is_err());
    assert!(demuxer.audio_rx.try_recv().is_err());
    assert_eq!(demuxer.video_rx.capacity(), Some(VIDEO_PACKET_QUEUE_CAPACITY));
    assert_eq!(demuxer.audio_rx.capacity(), Some(AUDIO_PACKET_QUEUE_CAPACITY));
    assert_eq!(demuxer.video_queue_capacity, 128);
    assert_eq!(demuxer.audio_queue_capacity, 256);
    assert_eq!(demuxer.video_rx.capacity(), Some(demuxer.video_queue_capacity));
    assert_eq!(demuxer.audio_rx.capacity(), Some(demuxer.audio_queue_capacity));
}

#[test]
fn router_reports_a_gone_decoder() {
    let (demuxer, router) = Demuxer::<u32>::new(Some(0), Some(1));
    let Demuxer { video_rx, audio_rx, .. } = demuxer;
    drop(video_rx);
    let outcome = router.dispatch(0, 1);
    assert_eq!(outcome, DispatchOutcome::Disconnected(MediaKind::Video));
    assert!(!outcome.keeps_demuxing());
    let outcome = router.dispatch(1, 2);
    assert_eq!(outcome, DispatchOutcome::Queued(MediaKind::Audio));
    assert!(outcome.keeps_demuxing());
    assert!(DispatchOutcome::Discarded.keeps_demuxing());
    assert_eq!(audio_rx.try_recv(), Ok(2));
}

#[test]
fn stream_lookup_errors() {
    let (demuxer, _router) = Demuxer::<u32>::new(Some(0), None);
    assert_eq!(demuxer.video_decoder(2), Ok(0));
    assert_eq!(
        demuxer.video_decoder(0),
        Err(DemuxError::StreamNotFound(MediaKind::Video))
    );
    assert_eq!(
        demuxer.audio_decoder(2),
        Err(DemuxError::NoStream(MediaKind::Audio))
    );
    let (demuxer, _router) = Demuxer::<u32>::new(None, Some(4));
    assert_eq!(demuxer.video_decoder(9), Err(DemuxError::NoStream(MediaKind::Video)));
    assert_eq!(demuxer.audio_decoder(5), Ok(4));
    assert_eq!(
        demuxer.audio_decoder(4),
        Err(DemuxError::StreamNotFound(MediaKind::Audio))
    );
}

#[test]
fn time_base_of_selected_stream() {
    let tbs = vec![
        Rational { numerator: 1, denominator: 12800 },
        Rational { numerator: 1, denominator: 44100 },
    ];
    let (demuxer, _router) = Demuxer::<u32>::new(Some(0), Some(1));
    assert_eq!(
        demuxer.video_time_base(&tbs),
        Ok(Rational { numerator: 1, denominator: 12800 })
    );
    assert_eq!(
        demuxer.audio_time_base(&tbs),
        Ok(Rational { numerator: 1, denominator: 44100 })
    );
    assert_eq!(
        demuxer.audio_time_base(&tbs[..1]),
        Err(DemuxError::StreamNotFound(MediaKind::Audio))
    );
    let (demuxer, _router) = Demuxer::<u32>::new(None, None);
    assert_eq!(demuxer.video_time_base(&tbs), Err(DemuxError::NoStream(MediaKind::Video)));
    assert_eq!(demuxer.audio_time_base(&tbs), Err(DemuxError::NoStream(MediaKind::Audio)));
}

#[test]
fn decode_steps_on_success() {
    let mut step = DecodeStep::SetUpConverter;
    let expected = [
        DecodeStep::ReceivePacket,
        DecodeStep::SubmitPacket,
        DecodeStep::ReceiveFrame,
        DecodeStep::ConvertFrame,
        DecodeStep::DeliverFrame,
        DecodeStep::ReceiveFrame,
    ];
    for e in expected {
        step = next_decode_step(step, true);
        assert_eq!(step, e);
    }
}

#[test]
fn decode_steps_on_failure() {
    assert_eq!(next_decode_step(DecodeStep::SetUpConverter, false), DecodeStep::Finished);
    assert_eq!(next_decode_step(DecodeStep::ReceivePacket, false), DecodeStep::Finished);
    assert_eq!(next_decode_step(DecodeStep::SubmitPacket, false), DecodeStep::ReceivePacket);
    assert_eq!(next_decode_step(DecodeStep::ReceiveFrame, false), DecodeStep::ReceivePacket);
    assert_eq!(next_decode_step(DecodeStep::ConvertFrame, false), DecodeStep::ReceiveFrame);
    assert_eq!(next_decode_step(DecodeStep::DeliverFrame, false), DecodeStep::Finished);
    assert_eq!(next_decode_step(DecodeStep::Finished, true), DecodeStep::Finished);
    assert_eq!(next_decode_step(DecodeStep::Finished, false), DecodeStep::Finished);
}

#[test]
fn decoded_queues_deliver_until_dropped() {
    let (decoder, sink) = VideoDecoder::<u8>::new();
    assert_eq!(decoder.frame_rx.capacity(), Some(DECODED_FRAME_QUEUE_CAPACITY));
    assert!(sink.deliver(7));
    assert_eq!(decoder.frame_rx.try_recv(), Ok(7));
    drop(decoder);
    assert!(!sink.deliver(8));

    let (decoder, sink) = AudioDecoder::<u16>::new();
    assert_eq!(decoder.audio_rx.capacity(), Some(DECODED_AUDIO_QUEUE_CAPACITY));
    assert!(sink.deliver(3));
    assert_eq!(decoder.audio_rx.try_recv(), Ok(3));
}

#[test]
fn channel_layout_choice() {
    assert_eq!(target_channel_layout(1), ChannelLayout::Mono);
    assert_eq!(target_channel_layout(2), ChannelLayout::Stereo);
    assert_eq!(target_channel_layout(0), ChannelLayout::Stereo);
    assert_eq!(target_channel_layout(6), ChannelLayout::Stereo);
}

#[test]
fn sample_words_in_memory_order() {
    let bytes = [1u8, 2, 3, 4, 5, 6, 7, 8, 9, 10];
    assert_eq!(packed_sample_words(&bytes, 2), vec![[1, 2, 3, 4], [5, 6, 7, 8]]);
    assert_eq!(packed_sample_words(&bytes, 9), vec![[1, 2, 3, 4], [5, 6, 7, 8]]);
    assert_eq!(packed_sample_words(&bytes, 1), vec![[1, 2, 3, 4]]);
    assert_eq!(packed_sample_words(&bytes, 0), Vec::<[u8; 4]>::new());
    assert_eq!(packed_sample_words(&[1, 2, 3], 1), Vec::<[u8; 4]>::new());
    let one = 1.0f32.to_ne_bytes();
    let words = packed_sample_words(&one, 1);
    assert_eq!(f32::from_ne_bytes(words[0]), 1.0);
}

#[test]
fn ring_holds_half_a_second() {
    assert_eq!(sample_ring_capacity(44100, 2), 44100);
    assert_eq!(sample_ring_capacity(48000, 1), 24000);
    assert_eq!(sample_ring_capacity(3, 1), 1);
}

#[test]
fn ring_feeds_and_renders_with_silence() {
    let (mut producer, mut consumer) = open_sample_ring(4, 1);
    let chunk = [11u32, 12, 13];
    assert_eq!(feed_chunk(&mut producer, &chunk, 0), FeedProgress::Pending(2));
    let mut out = [9u32; 3];
    let rendered = render_output(&mut consumer, &mut out, 1);
    assert_eq!(rendered.samples, 2);
    assert_eq!(rendered.frames, 2);
    assert_eq!(out, [11, 12, 0]);
    assert_eq!(feed_chunk(&mut producer, &chunk, 2), FeedProgress::Complete);
    assert_eq!(feed_chunk(&mut producer, &chunk, 3), FeedProgress::Complete);
    let mut out = [9u32; 4];
    let rendered = render_output(&mut consumer, &mut out, 2);
    assert_eq!(rendered.samples, 1);
    assert_eq!(rendered.frames, 0);
    assert_eq!(out, [13, 0, 0, 0]);
}

#[test]
fn stereo_frames_count_whole_pairs() {
    let (mut producer, mut consumer) = open_sample_ring(8, 2);
    assert_eq!(feed_chunk(&mut producer, &[1, 2, 3, 4, 5], 0), FeedProgress::Complete);
    let mut out = [0u32; 6];
    let rendered = render_output(&mut consumer, &mut out, 2);
    assert_eq!(rendered.samples, 5);
    assert_eq!(rendered.frames, 2);
    assert_eq!(out, [1, 2, 3, 4, 5, 0]);
}

#[test]
fn feed_progress_decisions() {
    assert_eq!(feed_progress(10, 0, 10), FeedProgress::Complete);
    assert_eq!(feed_progress(10, 4, 3), FeedProgress::Pending(7));
    assert_eq!(feed_progress(10, 4, 0), FeedProgress::Pending(4));
    assert_eq!(feed_progress(0, 0, 0), FeedProgress::Complete);
    assert_eq!(feed_progress(5, 5, 0), FeedProgress::Complete);
}

#[test]
fn full_ring_leaves_chunk_pending_at_start() {
    let (mut producer, _consumer) = open_sample_ring(2, 1);
    assert_eq!(feed_chunk(&mut producer, &[1], 0), FeedProgress::Complete);
    assert_eq!(feed_chunk(&mut producer, &[2, 3], 0), FeedProgress::Pending(0));
}

#[test]
fn queue_for_selects_the_queue_of_its_kind() {
    let (demuxer, router) = Demuxer::<u32>::new(Some(0), Some(1));
    router.queue_for(MediaKind::Video).send(5).unwrap();
    router.queue_for(MediaKind::Audio).send(6).unwrap();
    assert_eq!(demuxer.video_rx.try_recv(), Ok(5));
    assert_eq!(demuxer.audio_rx.try_recv(), Ok(6));
}

#[test]
fn padded_plane_yields_only_its_samples() {
    let mut plane = Vec::new();
    plane.extend_from_slice(&0.5f32.to_ne_bytes());
    plane.extend_from_slice(&(-0.25f32).to_ne_bytes());
    plane.extend_from_slice(&[0u8; 24]);
    let words = packed_sample_words(&plane, 2);
    assert_eq!(words.len(), 2);
    assert_eq!(f32::from_ne_bytes(words[0]), 0.5);
    assert_eq!(f32::from_ne_bytes(words[1]), -0.25);
}
