//! Shared playback state: the single mutually-exclusive region that both
//! the control layer and the playback worker mutate.
//!
//! Every mutation goes through one of the methods here, so the state
//! invariant — a playing player always has a current track, an idle player
//! has no track and zeroed progress counters — is enforced centrally.
//! Progress is carried as exact frame counts; the displayed fraction is
//! derived from them in thousandths, so it never drifts.

use vstd::arithmetic::div_mod::{lemma_div_is_ordered, lemma_div_multiples_vanish};
use vstd::prelude::*;

verus! {

/// One entry of the playback queue: a file path and the name shown for it.
pub struct QueuedTrack {
    pub path: String,
    pub display_name: String,
}

impl QueuedTrack {
    /// A copy of the track, equal to the original.
    pub fn duplicate(&self) -> (t: QueuedTrack)
        ensures
            t == *self,
    {
        QueuedTrack { path: self.path.clone(), display_name: self.display_name.clone() }
    }
}

/// The shared playback state. `gain_milli` is the volume multiplier in
/// thousandths; `elapsed_frames` and `total_frames` carry playback
/// progress as exact frame counts at the device rate.
pub struct Player {
    pub queue: Vec<QueuedTrack>,
    pub current_track: Option<QueuedTrack>,
    pub is_playing: bool,
    pub transport_connected: bool,
    pub gain_milli: u32,
    pub elapsed_frames: u64,
    pub total_frames: u64,
}

/// The fraction `elapsed / total` in thousandths, zero when the total is
/// zero.
pub open spec fn progress_permille_of(elapsed: int, total: int) -> int {
    if total == 0 {
        0
    } else {
        (1000 * elapsed) / total
    }
}

/// The idle transition: playback stops, the current track is dropped and
/// the progress counters are cleared; queue, gain and transport are kept.
pub open spec fn reset_idle(p: Player) -> Player {
    Player {
        current_track: None,
        is_playing: false,
        elapsed_frames: 0,
        total_frames: 0,
        ..p
    }
}

impl Player {
    /// State invariant: a playing player has a current track; an idle one
    /// has none and zeroed progress; elapsed never passes the total.
    pub open spec fn wf(self) -> bool {
        &&& self.is_playing ==> self.current_track is Some
        &&& !self.is_playing ==> self.current_track is None && self.elapsed_frames == 0
            && self.total_frames == 0
        &&& self.elapsed_frames <= self.total_frames
    }

    /// A fresh player: idle, empty queue, no transport, unit gain.
    pub fn new() -> (p: Player)
        ensures
            p.wf(),
            p.queue@.len() == 0,
            p.current_track is None,
            !p.is_playing,
            !p.transport_connected,
            p.gain_milli == crate::volume::UNIT_GAIN_MILLI,
            p.elapsed_frames == 0,
            p.total_frames == 0,
    {
        Player {
            queue: Vec::new(),
            current_track: None,
            is_playing: false,
            transport_connected: false,
            gain_milli: crate::volume::UNIT_GAIN_MILLI,
            elapsed_frames: 0,
            total_frames: 0,
        }
    }

    /// Appends a track at the tail of the queue; always succeeds.
    pub fn enqueue(&mut self, track: QueuedTrack)
        requires
            old(self).wf(),
        ensures
            final(self).wf(),
            final(self).queue@ == old(self).queue@.push(track),
            *final(self) == (Player { queue: final(self).queue, ..*old(self) }),
    {
        self.queue.push(track);
    }

    /// Removes the track at `index`; a stale index (out of range at removal
    /// time) is a silent no-op reported by the returned flag.
    pub fn remove(&mut self, index: usize) -> (removed: bool)
        requires
            old(self).wf(),
        ensures
            final(self).wf(),
            removed <==> index < old(self).queue@.len(),
            removed ==> final(self).queue@ == old(self).queue@.remove(index as int),
            !removed ==> final(self).queue@ == old(self).queue@,
            *final(self) == (Player { queue: final(self).queue, ..*old(self) }),
    {
        if index < self.queue.len() {
            self.queue.remove(index);
            true
        } else {
            false
        }
    }

    /// Atomic check-and-pop that starts a playback run: pops and returns
    /// the queue head if and only if the player is not already playing, the
    /// queue is non-empty and a transport is connected; then marks the
    /// player playing with the popped track current and progress cleared.
    /// Otherwise the player is unchanged and no track is handed out.
    pub fn try_begin_playback(&mut self) -> (track: Option<QueuedTrack>)
        requires
            old(self).wf(),
        ensures
            final(self).wf(),
            track is Some <==> !old(self).is_playing && old(self).queue@.len() > 0 && old(
                self,
            ).transport_connected,
            old(self).is_playing ==> track is None,
            old(self).queue@.len() == 0 ==> track is None,
            !old(self).transport_connected ==> track is None,
            track is None ==> *final(self) == *old(self),
            track is Some ==> {
                &&& track == Some(old(self).queue@[0])
                &&& final(self).queue@ == old(self).queue@.subrange(
                    1,
                    old(self).queue@.len() as int,
                )
                &&& final(self).current_track == Some(old(self).queue@[0])
                &&& final(self).is_playing
                &&& final(self).elapsed_frames == 0
                &&& final(self).total_frames == 0
                &&& final(self).gain_milli == old(self).gain_milli
                &&& final(self).transport_connected == old(self).transport_connected
            },
    {
        if !self.is_playing && self.queue.len() > 0 && self.transport_connected {
            let head = self.queue.remove(0);
            let out = head.duplicate();
            self.current_track = Some(head);
            self.is_playing = true;
            self.elapsed_frames = 0;
            self.total_frames = 0;
            proof {
                assert(self.queue@ =~= old(self).queue@.subrange(
                    1,
                    old(self).queue@.len() as int,
                ));
            }
            Some(out)
        } else {
            None
        }
    }

    /// Requests a stop and resets the player to idle. Cancellation of a
    /// running stream is cooperative: the streaming loop observes the
    /// cleared flag at its next chunk boundary. This is also the reset a
    /// finished or failed run performs, the only completion signal there
    /// is.
    pub fn request_stop(&mut self)
        requires
            old(self).wf(),
        ensures
            final(self).wf(),
            *final(self) == reset_idle(*old(self)),
            !final(self).is_playing,
    {
        self.is_playing = false;
        self.current_track = None;
        self.elapsed_frames = 0;
        self.total_frames = 0;
    }

    /// Stores a new gain, in thousandths; no validation, consumed by the
    /// volume stage at each chunk.
    pub fn set_gain(&mut self, gain_milli: u32)
        requires
            old(self).wf(),
        ensures
            final(self).wf(),
            *final(self) == (Player { gain_milli, ..*old(self) }),
    {
        self.gain_milli = gain_milli;
    }

    /// Records whether a transport is connected.
    pub fn set_transport_connected(&mut self, connected: bool)
        requires
            old(self).wf(),
        ensures
            final(self).wf(),
            *final(self) == (Player { transport_connected: connected, ..*old(self) }),
    {
        self.transport_connected = connected;
    }

    /// Records the decoded buffer's length as the run's total duration,
    /// in frames (4 bytes each). Ignored when the run was already stopped,
    /// so a raced stop request is never overwritten.
    pub fn set_total_from_bytes(&mut self, buffer_len: usize)
        requires
            old(self).wf(),
        ensures
            final(self).wf(),
            old(self).is_playing ==> *final(self) == (Player {
                elapsed_frames: 0,
                total_frames: (buffer_len / 4) as u64,
                ..*old(self)
            }),
            !old(self).is_playing ==> *final(self) == *old(self),
    {
        if self.is_playing {
            self.elapsed_frames = 0;
            self.total_frames = (buffer_len / 4) as u64;
        }
    }

    /// Records streaming progress, in frames. Ignored when the run was
    /// already stopped or the count does not fit the recorded total, so
    /// the invariant survives any interleaving with a stop request.
    pub fn update_progress(&mut self, elapsed_frames: u64)
        requires
            old(self).wf(),
        ensures
            final(self).wf(),
            old(self).is_playing && elapsed_frames <= old(self).total_frames ==> *final(self)
                == (Player { elapsed_frames, ..*old(self) }),
            !(old(self).is_playing && elapsed_frames <= old(self).total_frames) ==> *final(self)
                == *old(self),
    {
        if self.is_playing && elapsed_frames <= self.total_frames {
            self.elapsed_frames = elapsed_frames;
        }
    }

    /// The playback fraction in thousandths: `1000 * elapsed / total`,
    /// zero while no total is known.
    pub fn progress_permille(&self) -> (p: u32)
        requires
            self.wf(),
        ensures
            p as int == progress_permille_of(self.elapsed_frames as int, self.total_frames as int),
            p <= 1000,
    {
        if self.total_frames == 0 {
            0
        } else {
            proof {
                lemma_div_is_ordered(
                    1000 * (self.elapsed_frames as int),
                    1000 * (self.total_frames as int),
                    self.total_frames as int,
                );
                lemma_div_multiples_vanish(1000, self.total_frames as int);
            }
            let p = (1000u128 * (self.elapsed_frames as u128) / (self.total_frames as u128)) as u32;
            p
        }
    }
}

/// Stopping is idempotent: a second stop request finds the player already
/// idle and leaves it exactly as the first one did.
pub proof fn lemma_stop_idempotent(p: Player)
    ensures
        reset_idle(reset_idle(p)) == reset_idle(p),
        !reset_idle(p).is_playing,
{
}

/// Progress never moves backwards: with a fixed total, a larger elapsed
/// frame count never yields a smaller fraction.
pub proof fn lemma_progress_monotone(e1: int, e2: int, total: int)
    requires
        0 <= e1 <= e2,
        0 <= total,
    ensures
        progress_permille_of(e1, total) <= progress_permille_of(e2, total),
{
    if total != 0 {
        lemma_div_is_ordered(1000 * e1, 1000 * e2, total);
    }
}

/// An uninterrupted run ends at exactly full progress: when every frame
/// has been streamed the fraction is exactly 1000 thousandths.
pub proof fn lemma_progress_complete(total: int)
    requires
        total > 0,
    ensures
        progress_permille_of(total, total) == 1000,
{
    lemma_div_multiples_vanish(1000, total);
}

} // verus!
