[package]
name = "rust_video_player"
version = "0.1.0"
edition = "2021"
publish = false

[dependencies]
crossbeam-channel = "0.5"
ringbuf = "0.3"
ffmpeg-next = "7"
cpal = "0.15"
minifb = { version = "0.27", default-features = false, features = ["x11"] }
