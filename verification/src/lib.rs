//! Audio streaming and pacing engine.
//!
//! The library models the core of a PCM streamer that feeds a fixed-rate
//! serial playback device: a FIFO track queue, shared playback state with
//! play/stop/volume controls, a volume stage over 16-bit samples, and a
//! drift-free pacing schedule for fixed-size transport chunks. All timing
//! is kept in integer units (sample frames and microseconds) so that the
//! chunk schedule accumulates no rounding error.

pub mod duration;
pub mod pacing;
pub mod state;
pub mod wav;
pub mod stream;
pub mod volume;

use vstd::prelude::*;

verus! {

/// Sample-consumption rate of the playback device, in frames per second.
pub const DEVICE_RATE: u64 = 46875;

/// Size of one transport chunk, in bytes.
pub const CHUNK_BYTES: usize = 4096;

/// Bytes per interleaved stereo 16-bit frame.
pub const BYTES_PER_FRAME: usize = 4;

} // verus!
