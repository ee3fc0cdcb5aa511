//! A verified adapter that exposes a vorbis bitstream decoder through a small,
//! uniform decoder interface: it parses container extradata into the three
//! per-stream headers, feeds compressed packets to the decoding engine, and
//! repacks the engine's per-channel output into interleaved 16-bit frames.

pub mod decoder;
pub mod engine;
pub mod error;
pub mod frame;
pub mod lacing;
