//! The session that is kept from one run to the next.
//!
//! What is kept is small: the volume, and, where a token was played, which
//! one, how far into its track, and when it left the reader. Times are kept
//! in whole milliseconds, so a position comes back up to one millisecond
//! earlier than it went in.

use crate::player::PlaybackPos;
use crate::rfid::Uid;
use crate::time::Span;
use crate::time::NANOS_PER_MILLI;
use crate::volume::Volume;
use crate::volume::DEFAULT_VOLUME;
use vstd::prelude::*;

verus! {

/// A playback that was under way: the token, the position in its track in
/// milliseconds, and the time at which the token left the reader, in
/// milliseconds since the Unix epoch.
#[derive(Copy, Clone, Debug, PartialEq, Eq, Structural)]
struct SerPlaybackState {
    uid: u64,
    playback_pos: u64,
    stop_time: u64,
}

/// A kept playback as the contracts see it: the token and the two times in
/// whole milliseconds.
pub struct KeptPlayback {
    pub uid: u64,
    pub position_millis: nat,
    pub stop_millis: nat,
}

/// The session kept between runs.
#[derive(Copy, Clone, Debug, PartialEq, Eq, Structural)]
pub struct SaveState {
    playback_state: Option<SerPlaybackState>,
    volume: Volume,
}

/// Whole milliseconds in `nanos` nanoseconds, reduced to 64 bits.
pub open spec fn kept_millis(nanos: nat) -> nat {
    (nanos / (NANOS_PER_MILLI as nat)) % 0x1_0000_0000_0000_0000
}

/// What is kept of a playback.
pub open spec fn kept(uid: Uid, pos: PlaybackPos, stop_time: Span) -> KeptPlayback {
    KeptPlayback {
        uid: uid.0,
        position_millis: kept_millis(pos.nanos()),
        stop_millis: kept_millis(stop_time.nanos()),
    }
}

/// What is kept of a playback, if there is one.
pub open spec fn kept_of(playback: Option<(Uid, PlaybackPos, Span)>) -> Option<KeptPlayback> {
    match playback {
        Some((uid, pos, stop_time)) => Some(kept(uid, pos, stop_time)),
        None => None,
    }
}

impl SaveState {
    /// The kept playback, if there is one.
    pub closed spec fn playback(self) -> Option<KeptPlayback> {
        match self.playback_state {
            Some(s) => Some(
                KeptPlayback {
                    uid: s.uid,
                    position_millis: s.playback_pos as nat,
                    stop_millis: s.stop_time as nat,
                },
            ),
            None => None,
        }
    }

    /// The kept volume step.
    pub closed spec fn volume_level(self) -> nat {
        self.volume.level()
    }

    /// The token, the position and the time of removal of the kept playback.
    pub fn playback_state(&self) -> (playback: Option<(Uid, PlaybackPos, Span)>)
        ensures
            match self.playback() {
                Some(k) => playback matches Some((uid, pos, stop_time)) && uid.0 == k.uid
                    && pos.nanos() == k.position_millis * NANOS_PER_MILLI && stop_time.nanos()
                    == k.stop_millis * NANOS_PER_MILLI,
                None => playback is None,
            },
    {
        match self.playback_state {
            Some(sbp) => Some(
                (
                    Uid(sbp.uid),
                    PlaybackPos::from_millis(sbp.playback_pos),
                    Span::from_millis(sbp.stop_time),
                ),
            ),
            None => None,
        }
    }

    /// Keeps `playback`: a token, a position in its track and the time, since
    /// the Unix epoch, at which the token left the reader; or keeps none.
    pub fn set_playback_state(&mut self, playback: Option<(Uid, PlaybackPos, Span)>)
        ensures
            final(self).playback() == kept_of(playback),
            final(self).volume_level() == old(self).volume_level(),
    {
        match playback {
            Some((uid, pos, stop_time)) => {
                let wide: u128 = stop_time.as_millis();
                assert(wide as u64 == wide % 0x1_0000_0000_0000_0000) by (bit_vector);
                self.playback_state = Some(
                    SerPlaybackState {
                        uid: uid.0,
                        playback_pos: pos.as_millis(),
                        stop_time: wide as u64,
                    },
                );
            },
            None => {
                self.playback_state = None;
            },
        }
    }

    /// The kept volume.
    pub fn volume(&self) -> (volume: Volume)
        ensures
            volume.level() == self.volume_level(),
    {
        self.volume
    }

    /// Keeps `vol`.
    pub fn set_volume(&mut self, vol: Volume)
        ensures
            final(self).volume_level() == vol.level(),
            final(self).playback() == old(self).playback(),
    {
        self.volume = vol;
    }
}

impl Default for SaveState {
    /// The session of a first run: no playback, and the volume of a fresh session.
    fn default() -> (state: SaveState)
        ensures
            state.playback() is None,
            state.volume_level() == DEFAULT_VOLUME,
    {
        SaveState { playback_state: None, volume: Volume::default() }
    }
}

/// What was kept comes back. Where `state` keeps the playback of the token
/// `uid` at `pos`, taken off at `stop_time`, and `back` is what it gives as
/// its playback, `back` names the same token, and its position and time of
/// removal are those that were kept, at most one millisecond earlier and
/// never later. This holds of all times of less than 2^64 milliseconds.
pub proof fn lemma_kept_playback_comes_back(
    state: SaveState,
    uid: Uid,
    pos: PlaybackPos,
    stop_time: Span,
    back: (Uid, PlaybackPos, Span),
)
    requires
        pos.nanos() / (NANOS_PER_MILLI as nat) < 0x1_0000_0000_0000_0000,
        stop_time.nanos() / (NANOS_PER_MILLI as nat) < 0x1_0000_0000_0000_0000,
        state.playback() == kept_of(Some((uid, pos, stop_time))),
        state.playback() matches Some(k) && back.0.0 == k.uid && back.1.nanos()
            == k.position_millis * NANOS_PER_MILLI && back.2.nanos() == k.stop_millis
            * NANOS_PER_MILLI,
    ensures
        back.0 == uid,
        back.1.nanos() <= pos.nanos() < back.1.nanos() + NANOS_PER_MILLI,
        back.2.nanos() <= stop_time.nanos() < back.2.nanos() + NANOS_PER_MILLI,
{
}

} // verus!
