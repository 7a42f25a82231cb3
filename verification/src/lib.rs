//! A microphone-recorder core: device selection by name, WAV container
//! encoding, an append-only quantized-sample sink, and the lifecycle of
//! one capture session, all with verified contracts.

pub mod cli;
pub mod config;
pub mod device;
pub mod errors;
pub mod path;
pub mod session;
pub mod text;
pub mod wav;
