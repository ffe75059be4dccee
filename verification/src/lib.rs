//! Transcoding session management for on-the-fly HLS streaming with ffmpeg.

pub mod text;
pub mod error;
pub mod ffprobe;
pub mod profile;
pub mod profiles;
pub mod progress;
pub mod session;
pub mod manager;
pub mod patch;
