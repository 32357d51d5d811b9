//! Drift-free chunk pacing schedule.
//!
//! Each chunk's ideal playback offset is computed from the chunk index and
//! the device's fixed consumption rate, never from accumulated per-chunk
//! deltas, so the schedule carries no error term that grows with the chunk
//! count.

use vstd::arithmetic::div_mod::{lemma_div_by_multiple, lemma_div_multiples_vanish_quotient};
use vstd::prelude::*;

verus! {

/// Frames carried by one full transport chunk.
pub const FRAMES_PER_CHUNK: u64 = 1024;

/// The wall-clock time at which a frame offset falls due, in microseconds:
/// at 46875 frames per second one frame lasts exactly 64/3 microseconds.
pub open spec fn frames_to_micros(frames: int) -> int {
    (frames * 64) / 3
}

/// The 64/3 ratio is exact: it is the same schedule as a million
/// microseconds per 46875 frames.
pub proof fn lemma_micros_ratio_exact(frames: int)
    requires
        frames >= 0,
    ensures
        frames_to_micros(frames) == (frames * 1000000) / 46875,
{
    assert(frames * 64 >= 0) by (nonlinear_arith)
        requires
            frames >= 0,
    ;
    lemma_div_multiples_vanish_quotient(15625, frames * 64, 3);
    assert(15625 * (frames * 64) == frames * 1000000) by (nonlinear_arith);
    assert((frames * 64) / 3 == (15625 * (frames * 64)) / (15625int * 3));
}

/// The ideal playback offset of chunk `index`, in frames: the accumulated
/// frame count of all chunks before it.
pub open spec fn ideal_offset_frames(index: nat) -> nat {
    index * FRAMES_PER_CHUNK as nat
}

/// The running accumulator the streaming loop maintains: one full chunk's
/// frame count added per chunk written.
pub open spec fn accumulated_offset(index: nat) -> nat
    decreases index,
{
    if index == 0 {
        0
    } else {
        accumulated_offset((index - 1) as nat) + FRAMES_PER_CHUNK as nat
    }
}

/// The per-chunk accumulator equals the closed form for every chunk count:
/// summing chunk durations one at a time introduces no drift term, however
/// many chunks are streamed.
pub proof fn lemma_accumulator_drift_free(index: nat)
    ensures
        accumulated_offset(index) == ideal_offset_frames(index),
    decreases index,
{
    if index > 0 {
        lemma_accumulator_drift_free((index - 1) as nat);
    }
}

/// A chunk that starts at byte `index * 4096` of the buffer is due exactly
/// at its ideal frame offset: byte position over frame size agrees with
/// the closed-form schedule.
pub proof fn lemma_chunk_start_offset(index: nat)
    ensures
        (index * crate::CHUNK_BYTES as nat) as int / 4 == ideal_offset_frames(index),
{
    assert(index * 4096 == (index * 1024) * 4) by (nonlinear_arith);
    lemma_div_by_multiple(index as int * 1024, 4);
}

} // verus!
