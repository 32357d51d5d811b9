//! Exact decomposition of playback durations for display.
//!
//! The presentation layer shows elapsed and total time as
//! hours/minutes/seconds; the split is exact, so the three fields always
//! recompose to the original second count.

use vstd::arithmetic::div_mod::{lemma_fundamental_div_mod, lemma_mod_mod};
use vstd::prelude::*;

verus! {

/// Whole seconds covered by a frame count at the device rate.
pub fn seconds_of_frames(frames: u64) -> (s: u64)
    ensures
        s as int == frames as int / crate::DEVICE_RATE as int,
{
    frames / crate::DEVICE_RATE
}

/// Splits a second count into hours, minutes and seconds. The minute and
/// second fields are below 60 and the three recompose exactly.
pub fn split_duration(total_seconds: u64) -> (r: (u64, u64, u64))
    ensures
        r.0 == total_seconds as int / 3600,
        r.1 == (total_seconds as int % 3600) / 60,
        r.2 == total_seconds as int % 60,
        r.1 < 60,
        r.2 < 60,
        r.0 * 3600 + r.1 * 60 + r.2 == total_seconds,
{
    let hours = total_seconds / 3600;
    let minutes = (total_seconds % 3600) / 60;
    let seconds = total_seconds % 60;
    proof {
        let t = total_seconds as int;
        lemma_fundamental_div_mod(t, 3600);
        lemma_fundamental_div_mod(t % 3600, 60);
        lemma_mod_mod(t, 60, 60);
        assert(60int * 60 == 3600);
        assert((t % 3600) % 60 == t % 60);
    }
    (hours, minutes, seconds)
}

} // verus!
