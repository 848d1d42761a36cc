//! Verified core of a small desktop video player.
//!
//! The player demuxes a container into a video and an audio packet queue,
//! decodes each queue on a worker thread, converts decoded pictures into
//! `0RGB` display pixels and streams decoded audio through a lock-free sample
//! ring into the audio device.  This crate holds the decisions and the data
//! transformations of that pipeline; opening files, decoding, windows and the
//! audio device are driven by the application around it.

mod channel;
pub mod decode;
pub mod demux;
pub mod pixels;
pub mod playback;

pub use pixels::rgb24_to_u32_buffer;
