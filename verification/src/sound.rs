//! Pacing of writes to the audio device.
//!
//! The device takes buffers faster than it plays them. The scheduler counts the
//! frames written since it started, works out how long they take to play, and
//! tells the caller how long to sleep so that it runs at most one buffer
//! headroom ahead of real time. It never looks at the device itself: the caller
//! writes the buffer, hands in the time on a monotonic clock, and sleeps.

use crate::time::elapsed_since;
use crate::time::Span;
use crate::time::MAX_NANOS;
use vstd::prelude::*;

verus! {

/// The rate at which the output device is run, in frames per second.
pub const OUTPUT_SAMPLE_RATE: u64 = 44_100;

/// How far ahead of real time the writer may run, in milliseconds.
pub const AUDIO_BUF_SIZE_MILLIS: u64 = 100;

/// The time that `frames` frames take to play at `rate` frames per second, in
/// nanoseconds, rounded down to a whole microsecond.
pub open spec fn playing_time(frames: nat, rate: nat) -> nat {
    (frames * 1_000_000 / rate) * 1_000
}

/// How long to sleep once buffers worth `buffered` nanoseconds have been written
/// over `run_time` nanoseconds: what is left of `buffered` after the run time
/// and the headroom, if anything is.
pub open spec fn pacing_sleep(buffered: nat, run_time: nat) -> Option<nat> {
    let spent = run_time + AUDIO_BUF_SIZE_MILLIS * 1_000_000;
    if spent <= buffered {
        Some((buffered - spent) as nat)
    } else {
        None
    }
}

/// What the scheduler knows: the frames written since `started_at`, a time on
/// the caller's monotonic clock in nanoseconds, and the device's rate.
pub struct OutputView {
    pub frames: nat,
    pub started_at: nat,
    pub rate: nat,
}

/// The pacing state of the audio output.
#[derive(Clone, Copy, Debug, PartialEq, Eq, Structural)]
pub struct AudioOutput {
    current_sample_num: u64,
    start_time: Span,
    sample_rate: u64,
}

impl View for AudioOutput {
    type V = OutputView;

    closed spec fn view(&self) -> OutputView {
        OutputView {
            frames: self.current_sample_num as nat,
            started_at: self.start_time.nanos(),
            rate: self.sample_rate as nat,
        }
    }
}

impl AudioOutput {
    #[verifier::type_invariant]
    pub closed spec fn wf(self) -> bool {
        self.sample_rate > 0
    }

    /// An output that starts at `now` with nothing written.
    pub fn new(now: Span) -> (out: AudioOutput)
        ensures
            out@ == (OutputView {
                frames: 0,
                started_at: now.nanos(),
                rate: OUTPUT_SAMPLE_RATE as nat,
            }),
    {
        AudioOutput { current_sample_num: 0, start_time: now, sample_rate: OUTPUT_SAMPLE_RATE }
    }

    /// The device's rate in frames per second, which is never zero.
    pub fn sample_rate(&self) -> (rate: u64)
        ensures
            rate == self@.rate,
            rate > 0,
    {
        proof {
            use_type_invariant(self);
        }
        self.sample_rate
    }

    /// Starts the count anew at `now`, after the device was recovered from an
    /// error: the frames written before it are not caught up on.
    pub fn recover(&mut self, now: Span)
        ensures
            final(self)@ == (OutputView { frames: 0, started_at: now.nanos(), ..old(self)@ }),
    {
        proof {
            use_type_invariant(&*self);
        }
        *self =
        AudioOutput { current_sample_num: 0, start_time: now, sample_rate: self.sample_rate };
    }

    /// Whether `samples` more interleaved stereo samples can be counted in 64 bits.
    pub fn has_room(&self, samples: usize) -> (ok: bool)
        ensures
            ok == (self@.frames + samples / 2 <= u64::MAX),
    {
        (samples / 2) as u64 <= u64::MAX - self.current_sample_num
    }

    /// Counts `buf` as written and returns how long to sleep at `now`.
    pub fn play_buf(&mut self, buf: &[i16], now: Span) -> (sleep: Option<Span>)
        requires
            old(self)@.frames + buf@.len() / 2 <= u64::MAX,
        ensures
            final(self)@ == (OutputView {
                frames: old(self)@.frames + buf@.len() / 2,
                ..old(self)@
            }),
            sleep is Some <==> pacing_sleep(
                playing_time(final(self)@.frames, final(self)@.rate),
                elapsed_since(final(self)@.started_at, now.nanos()),
            ) is Some,
            sleep matches Some(s) ==> Some(s.nanos()) == pacing_sleep(
                playing_time(final(self)@.frames, final(self)@.rate),
                elapsed_since(final(self)@.started_at, now.nanos()),
            ),
    {
        proof {
            use_type_invariant(&*self);
        }
        let frames: u64 = self.current_sample_num + (buf.len() / 2) as u64;
        let micros: u128 = frames as u128 * 1_000_000 / self.sample_rate as u128;
        proof {
            vstd::arithmetic::div_mod::lemma_div_is_ordered_by_denominator(
                frames * 1_000_000,
                1,
                self.sample_rate as int,
            );
            assert(micros * 1_000 <= MAX_NANOS);
        }
        let sample_buffer_time = Span::from_micros_wide(micros);
        let run_time = now.saturating_sub(self.start_time);
        let headroom = Span::from_millis(AUDIO_BUF_SIZE_MILLIS);
        *self =
        AudioOutput {
            current_sample_num: frames,
            start_time: self.start_time,
            sample_rate: self.sample_rate,
        };
        match sample_buffer_time.checked_sub(run_time) {
            Some(ahead) => ahead.checked_sub(headroom),
            None => None,
        }
    }
}

} // verus!
