//! Verified core of a live speech-to-text pipeline: hardware configuration
//! negotiation, the capture chunker, the loopback queue, the rolling
//! inference window and the decisions of the transcription worker.

pub mod capture;
pub mod device;
pub mod error;
pub mod playback;
pub mod resources;
pub mod segments;
pub mod worker;
