//! One streaming run over a decoded PCM buffer.
//!
//! The session owns the buffer and hands it out as fixed-size scaled
//! chunks, one per call, deciding at every chunk boundary whether the run
//! goes on, is finished, or was cancelled. The caller performs the actual
//! transport write and the timed wait between chunks; the session computes
//! when each chunk falls due and how long a deficit to sleep. The schedule
//! is recomputed from the byte position each time, never accumulated, so
//! it cannot drift; and a write is never scheduled early — a sender that
//! is already behind proceeds at once and never speeds up to catch up.

use crate::pacing::frames_to_micros;
use crate::volume::scale_bytes;
use crate::volume::scale_range;
use crate::CHUNK_BYTES;
use vstd::arithmetic::div_mod::lemma_div_is_ordered;
use vstd::prelude::*;

verus! {

/// Largest buffer a session accepts, in bytes: bounds the arithmetic of
/// the schedule far beyond any real in-memory track.
pub const MAX_STREAM_BYTES: u64 = 0x100_0000_0000;

/// The decision taken at one chunk boundary.
pub enum StreamStep {
    /// The next chunk, volume-scaled and ready to write.
    Chunk(Vec<u8>),
    /// Every byte of the buffer has been handed out.
    Finished,
    /// The stop flag was observed; no further chunk is handed out.
    Cancelled,
}

/// Where the chunk that starts at `pos` ends: one full chunk, or the end
/// of the buffer for the final, possibly shorter one.
pub open spec fn chunk_end(pos: int, len: int) -> int {
    if pos + CHUNK_BYTES as int <= len {
        pos + CHUNK_BYTES as int
    } else {
        len
    }
}

/// A streaming run over one PCM buffer: the bytes and the position of the
/// next chunk.
pub struct StreamSession {
    pub data: Vec<u8>,
    pub pos: usize,
}

impl StreamSession {
    /// Session invariant: the position never passes the buffer end and the
    /// buffer is small enough for the schedule arithmetic.
    pub open spec fn wf(self) -> bool {
        &&& self.pos <= self.data@.len()
        &&& self.data@.len() <= MAX_STREAM_BYTES as int
    }

    /// Starts a run at the head of a decoded buffer.
    pub fn new(data: Vec<u8>) -> (s: StreamSession)
        requires
            data@.len() <= MAX_STREAM_BYTES as int,
        ensures
            s.wf(),
            s.data == data,
            s.pos == 0,
    {
        StreamSession { data, pos: 0 }
    }

    /// Total frames the buffer holds (4 bytes each).
    pub fn total_frames(&self) -> (n: u64)
        ensures
            n as int == self.data@.len() as int / 4,
    {
        (self.data.len() / 4) as u64
    }

    /// Frames already handed out: the byte position over the frame size.
    pub fn frames_sent(&self) -> (n: u64)
        ensures
            n as int == self.pos as int / 4,
    {
        (self.pos / 4) as u64
    }

    /// The wall-clock offset, from stream start, at which the next chunk
    /// falls due, in microseconds — recomputed from the position, never
    /// accumulated.
    pub fn ideal_offset_micros(&self) -> (t: u64)
        requires
            self.wf(),
        ensures
            t as int == frames_to_micros(self.pos as int / 4),
    {
        proof {
            lemma_div_is_ordered(self.pos as int, MAX_STREAM_BYTES as int, 4);
        }
        ((self.pos as u64 / 4) * 64) / 3
    }

    /// How long the caller must block before writing the next chunk: the
    /// exact deficit when the wall clock is behind the chunk's ideal
    /// offset, and nothing when it is already at or past it — the
    /// schedule never speeds up to catch up.
    pub fn sleep_micros(&self, elapsed_micros: u64) -> (d: Option<u64>)
        requires
            self.wf(),
        ensures
            elapsed_micros < frames_to_micros(self.pos as int / 4) ==> d == Some(
                (frames_to_micros(self.pos as int / 4) - elapsed_micros) as u64,
            ),
            elapsed_micros >= frames_to_micros(self.pos as int / 4) ==> d is None,
    {
        let ideal = self.ideal_offset_micros();
        if elapsed_micros < ideal {
            Some(ideal - elapsed_micros)
        } else {
            None
        }
    }

    /// The decision at one chunk boundary. With the stop flag cleared the
    /// session is untouched and no chunk is handed out; past the buffer
    /// end the run is finished; otherwise the next chunk is scaled with
    /// the gain current at this instant and the position advances to its
    /// end.
    pub fn advance(&mut self, keep_playing: bool, gain_milli: u32) -> (step: StreamStep)
        requires
            old(self).wf(),
        ensures
            final(self).wf(),
            final(self).data == old(self).data,
            final(self).pos >= old(self).pos,
            !keep_playing ==> step is Cancelled && *final(self) == *old(self),
            keep_playing && old(self).pos == old(self).data@.len() ==> step is Finished
                && *final(self) == *old(self),
            keep_playing && old(self).pos < old(self).data@.len() ==> {
                let end = chunk_end(old(self).pos as int, old(self).data@.len() as int);
                &&& final(self).pos == end
                &&& step matches StreamStep::Chunk(c) && c@ == scale_bytes(
                    old(self).data@.subrange(old(self).pos as int, end),
                    gain_milli as int,
                )
            },
    {
        if !keep_playing {
            StreamStep::Cancelled
        } else if self.pos == self.data.len() {
            StreamStep::Finished
        } else {
            let end = if self.data.len() - self.pos >= CHUNK_BYTES {
                self.pos + CHUNK_BYTES
            } else {
                self.data.len()
            };
            let chunk = scale_range(&self.data, self.pos, end, gain_milli);
            self.pos = end;
            StreamStep::Chunk(chunk)
        }
    }
}

} // verus!
