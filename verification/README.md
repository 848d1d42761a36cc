# rust_video_player

A small desktop video player built on FFmpeg, with its pipeline logic
verified in Verus.

* `src/` — the verified library:
  * `pixels` — RGB24 to `0RGB` framebuffer conversion and window geometry;
  * `demux` — packet routing to the video/audio queues and stream lookups;
  * `decode` — the decoder threads' control flow, their output queues,
    output channel layout and sample framing;
  * `playback` — the lock-free sample ring between the feeding thread and
    the audio device callback;
  * `channel` — the bounded queues the stages share.
* `app/` — the program: FFmpeg demuxing/decoding/scaling/resampling, the
  window and the audio device, and the floating-point timestamps.
* `tests/` — tests of the library.
