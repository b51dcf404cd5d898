//! Verified core of a real-time audio capture pipeline.
//!
//! The library models the path from a hardware input callback to its two
//! consumers: a durable file sink and a windowed transcription buffer.
//! Hardware streams, disk I/O and the speech-recognition engine are external
//! collaborators; the decisions and data movement between them live here,
//! with contracts.

pub mod chunk;
pub mod config;
pub mod device;
pub mod file_sink;
pub mod sample;
pub mod stream;
pub mod window;
