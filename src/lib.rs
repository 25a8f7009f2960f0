//! Audio normalization and transcription pipeline: container sniffing,
//! transcoding decisions, PCM sample decoding and transcript assembly.

pub mod error;
pub mod format;
pub mod pcm;
pub mod transcript;
pub mod transcode;
pub mod inference;
pub mod api;
pub mod config;
pub mod pipeline;
