//! The playback engine: one audio source at a time, played, paused and faded.
//!
//! The engine is a state machine. It never touches a file or a device: whoever
//! drives it opens and seeks the decoder, reads one packet per step and hands
//! the outcome in, and writes the samples that come back to the output. What the
//! engine keeps of a source is what it needs to decide: the rates, and how many
//! frames went by.

use crate::resampler::resampled;
use crate::resampler::sink_index;
use crate::resampler::Resampler;
use crate::sound::AudioOutput;
use crate::sound::OutputView;
use crate::time::Span;
use crate::time::NANOS_PER_MILLI;
use crate::volume::attenuated;
use crate::volume::Volume;
use vstd::prelude::*;

verus! {

/// The length of a fade, in milliseconds.
pub const FADE_TIME_MILLIS: u64 = 500;

/// The number of samples in the buffer of silence that keeps the output going
/// while nothing plays.
pub const MUTED_BUF_LEN: usize = 1024;

/// A position in a track: the time since its start.
#[derive(Copy, Clone, Debug, PartialEq, Eq, Structural)]
pub struct PlaybackPos(Span);

impl PlaybackPos {
    /// The position in nanoseconds since the start of the track.
    pub closed spec fn nanos(self) -> nat {
        self.0.nanos()
    }

    pub fn from_millis(millis: u64) -> (pos: PlaybackPos)
        ensures
            pos.nanos() == millis * NANOS_PER_MILLI,
    {
        PlaybackPos(Span::from_millis(millis))
    }

    /// Whole milliseconds since the start of the track, reduced to 64 bits.
    pub fn as_millis(&self) -> (millis: u64)
        ensures
            millis == (self.nanos() / (NANOS_PER_MILLI as nat)) % 0x1_0000_0000_0000_0000,
    {
        let wide: u128 = self.0.as_millis();
        assert(wide as u64 == wide % 0x1_0000_0000_0000_0000) by (bit_vector);
        wide as u64
    }

    /// The position that lies `span` after the start of the track.
    pub fn from_span(span: Span) -> (pos: PlaybackPos)
        ensures
            pos.nanos() == span.nanos(),
    {
        PlaybackPos(span)
    }

    /// The time from the start of the track to the position.
    pub fn span(&self) -> (span: Span)
        ensures
            span.nanos() == self.nanos(),
    {
        self.0
    }
}

/// Why a source could not be opened or sought.
#[derive(Copy, Clone, Debug, PartialEq, Eq, Structural)]
pub enum AudioSourceError {
    /// The stream is not one the decoder can read, or not one it can seek to the place asked for.
    Vorbis,
    /// The file could not be opened or read.
    Io,
}

/// What one read of the decoder gave.
#[derive(Debug, PartialEq, Eq)]
pub enum Decoded {
    /// A packet of interleaved stereo samples.
    Samples(Vec<i16>),
    /// A packet that held no audio or could not be decoded: it is passed over.
    Skipped,
    /// The stream has ended.
    End,
}

/// The frame that plays `nanos` after the start of a track of `rate` frames per
/// second. The time counts in whole microseconds.
pub open spec fn frame_index(rate: nat, nanos: nat) -> nat {
    (nanos / 1_000) * rate / 1_000_000
}

/// What the engine knows of its source.
pub struct SourceView {
    /// Frames per second of the source.
    pub rate: nat,
    /// Frames per second of the output.
    pub sink_rate: nat,
    /// The frame that the decoder stands at.
    pub position: nat,
    /// The frames that went through the resampler since the source was opened.
    pub resampled: nat,
}

impl SourceView {
    /// The time of the position, in nanoseconds, rounded down to a whole microsecond.
    pub open spec fn time(self) -> nat {
        (1_000_000 * self.position / self.rate) * 1_000
    }

    /// Whether `frames` more frames can be counted in 64 bits.
    pub open spec fn has_room(self, frames: nat) -> bool {
        &&& self.position + frames <= u64::MAX
        &&& self.resampled + frames <= u64::MAX
        &&& sink_index(self.resampled + frames, self.rate, self.sink_rate) <= u64::MAX
    }

    /// The source after `frames` more frames were decoded.
    pub open spec fn advanced(self, frames: nat) -> SourceView {
        SourceView {
            position: self.position + frames,
            resampled: self.resampled + frames,
            ..self
        }
    }

    /// The source after the decoder was moved to `frame`.
    pub open spec fn moved_to(self, frame: nat) -> SourceView {
        SourceView { position: frame, ..self }
    }

    /// The frame to seek to for going back by `nanos` from the position, and
    /// to the start where the position is less than `nanos` in.
    pub open spec fn rewind_frame(self, nanos: nat) -> nat {
        if nanos <= self.time() {
            frame_index(self.rate, (self.time() - nanos) as nat)
        } else {
            0
        }
    }
}

/// The source of a freshly opened file.
pub open spec fn opened_source(rate: nat, sink_rate: nat) -> SourceView {
    SourceView { rate, sink_rate, position: 0, resampled: 0 }
}

/// An open source, as far as the engine keeps track of it.
#[derive(Copy, Clone, Debug, PartialEq, Eq, Structural)]
pub struct AudioSource {
    resampler: Resampler,
    current_pos: u64,
}

impl View for AudioSource {
    type V = SourceView;

    closed spec fn view(&self) -> SourceView {
        SourceView {
            rate: self.resampler.source_rate(),
            sink_rate: self.resampler.sink_rate(),
            position: self.current_pos as nat,
            resampled: self.resampler.frames_in(),
        }
    }
}

/// The frame that plays at `pos` in a track of `rate` frames per second, or
/// `None` where its number does not fit in 64 bits.
pub fn frame_at(rate: u64, pos: PlaybackPos) -> (frame: Option<u64>)
    ensures
        frame is Some <==> frame_index(rate as nat, pos.nanos()) <= u64::MAX,
        frame matches Some(f) ==> f == frame_index(rate as nat, pos.nanos()),
{
    let nanos: u128 = pos.span().as_nanos();
    let micros: u128 = nanos / 1_000;
    let whole: u128 = micros / 1_000_000;
    let part: u128 = micros % 1_000_000;
    proof {
        assert(whole <= u64::MAX);
        assert(whole * (rate as u128) <= 0xffff_ffff_ffff_ffff * 0xffff_ffff_ffff_ffff)
            by (nonlinear_arith)
            requires
                whole <= 0xffff_ffff_ffff_ffff,
                rate <= 0xffff_ffff_ffff_ffff,
        ;
        assert(part * (rate as u128) <= 1_000_000 * 0xffff_ffff_ffff_ffff) by (nonlinear_arith)
            requires
                part < 1_000_000,
                rate <= 0xffff_ffff_ffff_ffff,
        ;
        assert((whole * 1_000_000 + part) * (rate as int) / 1_000_000 == whole * (rate as int) + (
        part * (rate as int)) / 1_000_000) by (nonlinear_arith);
    }
    let frame: u128 = whole * (rate as u128) + part * (rate as u128) / 1_000_000;
    if frame <= u64::MAX as u128 {
        Some(frame as u64)
    } else {
        None
    }
}

impl AudioSource {
    /// The source of a freshly opened file of `sample_rate` frames per second,
    /// to be played at `output_sample_rate`.
    pub fn new(sample_rate: u64, output_sample_rate: u64) -> (source: AudioSource)
        requires
            sample_rate > 0,
        ensures
            source@ == opened_source(sample_rate as nat, output_sample_rate as nat),
    {
        AudioSource { resampler: Resampler::new(sample_rate, output_sample_rate), current_pos: 0 }
    }

    /// Frames per second of the source, which is never zero.
    pub fn sample_rate(&self) -> (rate: u64)
        ensures
            rate == self@.rate,
            rate > 0,
    {
        self.resampler.source_sample_rate()
    }

    /// The time of the frame that the decoder stands at.
    pub fn current_pos(&self) -> (pos: PlaybackPos)
        ensures
            pos.nanos() == self@.time(),
    {
        let rate: u64 = self.sample_rate();
        let micros: u128 = 1_000_000 * (self.current_pos as u128) / (rate as u128);
        proof {
            vstd::arithmetic::div_mod::lemma_div_is_ordered_by_denominator(
                1_000_000 * self.current_pos,
                1,
                rate as int,
            );
        }
        PlaybackPos::from_span(Span::from_micros_wide(micros))
    }

    /// Notes that the decoder now stands at `frame`.
    pub fn seek(&mut self, frame: u64)
        ensures
            final(self)@ == old(self)@.moved_to(frame as nat),
    {
        self.current_pos = frame;
    }

    /// Whether `decoded` can be taken in: a packet holds whole stereo frames,
    /// and their count fits.
    pub open spec fn accepts(self, decoded: Decoded) -> bool {
        decoded matches Decoded::Samples(samples) ==> samples@.len() % 2 == 0 && self@.has_room(
            samples@.len() / 2,
        )
    }

    /// Whether `frames` more frames can be counted in 64 bits.
    pub fn can_take(&self, frames: usize) -> (ok: bool)
        ensures
            ok == self@.has_room(frames as nat),
    {
        frames as u64 <= u64::MAX - self.current_pos && self.resampler.can_take(frames)
    }

    /// Takes in what the decoder gave: the samples of a packet at the output's
    /// rate, nothing for a packet passed over, `None` at the end of the stream.
    pub fn next_chunk(&mut self, decoded: Decoded) -> (chunk: Option<Vec<i16>>)
        requires
            old(self).accepts(decoded),
        ensures
            final(self)@ == source_after(old(self)@, decoded),
            chunk is None <==> decoded is End,
            chunk matches Some(samples) ==> samples@ == chunk_of(old(self)@, decoded),
    {
        match decoded {
            Decoded::Samples(samples) => {
                let frames: usize = samples.len() / 2;
                let out = self.resampler.resample_nearest(samples.as_slice());
                self.current_pos = self.current_pos + frames as u64;
                Some(out)
            },
            Decoded::Skipped => Some(Vec::new()),
            Decoded::End => None,
        }
    }
}

/// The source after `decoded` was taken in.
pub open spec fn source_after(source: SourceView, decoded: Decoded) -> SourceView {
    match decoded {
        Decoded::Samples(samples) => source.advanced(samples@.len() / 2),
        _ => source,
    }
}

/// The samples that `decoded` gives at the output's rate, before any volume is applied.
pub open spec fn chunk_of(source: SourceView, decoded: Decoded) -> Seq<i16> {
    match decoded {
        Decoded::Samples(samples) => resampled(
            samples@,
            source.resampled,
            source.rate,
            source.sink_rate,
        ),
        _ => Seq::empty(),
    }
}

/// The state of the engine: idle, or holding one source that is paused, playing
/// or fading. A fade carries the time in the track at which it set in, in nanoseconds.
pub enum Engine {
    Idle,
    Paused(SourceView),
    Playing(SourceView),
    FadeIn(SourceView, nat),
    FadeOut(SourceView, nat),
}

impl Engine {
    /// The source that the engine holds, if any.
    pub open spec fn source(self) -> Option<SourceView> {
        match self {
            Engine::Idle => None,
            Engine::Paused(s) => Some(s),
            Engine::Playing(s) => Some(s),
            Engine::FadeIn(s, _) => Some(s),
            Engine::FadeOut(s, _) => Some(s),
        }
    }

    /// Whether the engine is sending sound out: playing or in a fade.
    pub open spec fn is_playing(self) -> bool {
        self is Playing || self is FadeIn || self is FadeOut
    }

    /// The same state around another source.
    pub open spec fn with_source(self, source: SourceView) -> Engine {
        match self {
            Engine::Idle => Engine::Idle,
            Engine::Paused(_) => Engine::Paused(source),
            Engine::Playing(_) => Engine::Playing(source),
            Engine::FadeIn(_, begin) => Engine::FadeIn(source, begin),
            Engine::FadeOut(_, begin) => Engine::FadeOut(source, begin),
        }
    }

    /// Whether `decoded` can be pushed: while sound goes out, a packet holds
    /// whole stereo frames, and their count fits in 64 bits.
    pub open spec fn accepts(self, decoded: Decoded) -> bool {
        self.is_playing() ==> (decoded matches Decoded::Samples(samples) ==> samples@.len() % 2
            == 0 && self.source().unwrap().has_room(samples@.len() / 2))
    }
}

/// The state after `play`: a paused source fades in from where it stands, a
/// fade-out turns into a fade-in that set in when the fade-out did.
pub open spec fn after_play(engine: Engine) -> Engine {
    match engine {
        Engine::Paused(s) => Engine::FadeIn(s, s.time()),
        Engine::FadeOut(s, begin) => Engine::FadeIn(s, begin),
        other => other,
    }
}

/// The state after `pause`: what plays or fades in fades out from where it stands.
pub open spec fn after_pause(engine: Engine) -> Engine {
    match engine {
        Engine::Playing(s) => Engine::FadeOut(s, s.time()),
        Engine::FadeIn(s, _) => Engine::FadeOut(s, s.time()),
        other => other,
    }
}

/// The source that a file opens into, or why it does not: `opened` is the rate
/// of the file that was opened and, for a start position, sought.
pub open spec fn loaded(
    opened: Result<u64, AudioSourceError>,
    sink_rate: nat,
    start: Option<nat>,
) -> Result<SourceView, AudioSourceError> {
    match opened {
        Err(e) => Err(e),
        Ok(rate) => if rate == 0 {
            Err(AudioSourceError::Vorbis)
        } else {
            match start {
                None => Ok(opened_source(rate as nat, sink_rate)),
                Some(nanos) => if frame_index(rate as nat, nanos) <= u64::MAX {
                    Ok(
                        opened_source(rate as nat, sink_rate).moved_to(
                            frame_index(rate as nat, nanos),
                        ),
                    )
                } else {
                    Err(AudioSourceError::Vorbis)
                },
            }
        },
    }
}

/// Whole milliseconds from the start of a fade at `begin` to `current`, both in
/// nanoseconds; none where `current` lies before `begin`.
pub open spec fn fade_elapsed_millis(begin: nat, current: nat) -> nat {
    if begin <= current {
        ((current - begin) / 1_000_000) as nat
    } else {
        0
    }
}

/// The part of a fade that is over after `elapsed` milliseconds, in milliseconds.
pub open spec fn fade_progress(elapsed: nat) -> nat {
    if elapsed < FADE_TIME_MILLIS {
        elapsed
    } else {
        FADE_TIME_MILLIS as nat
    }
}

/// The volume step `elapsed` milliseconds into a fade-in to `target`: the
/// target times the part of the fade that is over, rounded to the nearest step,
/// a half upwards.
pub open spec fn fade_in_level(target: nat, elapsed: nat) -> nat {
    ((2 * target * fade_progress(elapsed) + FADE_TIME_MILLIS) / (2 * FADE_TIME_MILLIS)) as nat
}

/// The volume step `elapsed` milliseconds into a fade-out from `target`: the
/// target times the part of the fade that is still to come, rounded to the
/// nearest step, a half upwards.
pub open spec fn fade_out_level(target: nat, elapsed: nat) -> nat {
    ((2 * target * (FADE_TIME_MILLIS - fade_progress(elapsed)) + FADE_TIME_MILLIS) / (2
        * FADE_TIME_MILLIS)) as nat
}

/// Each of `samples` attenuated to the volume step `level`.
pub open spec fn scaled(level: nat, samples: Seq<i16>) -> Seq<i16> {
    Seq::new(samples.len(), |i: int| attenuated(level, samples[i]))
}

/// The buffer of silence that goes out while nothing plays.
pub open spec fn silence() -> Seq<i16> {
    Seq::new(MUTED_BUF_LEN as nat, |i: int| 0i16)
}

/// The volume step at which the engine sends out its next samples.
pub open spec fn level_now(engine: Engine, volume: nat) -> nat {
    match engine {
        Engine::FadeIn(s, begin) => fade_in_level(volume, fade_elapsed_millis(begin, s.time())),
        Engine::FadeOut(s, begin) => fade_out_level(volume, fade_elapsed_millis(begin, s.time())),
        _ => volume,
    }
}

/// The state after one step in which the decoder gave `decoded`. The end of
/// the stream leaves the engine idle. A fade that has lasted its full length
/// when the step begins is over when it ends.
pub open spec fn pushed_engine(engine: Engine, decoded: Decoded) -> Engine {
    match engine {
        Engine::Idle => Engine::Idle,
        Engine::Paused(s) => Engine::Paused(s),
        Engine::Playing(s) => if decoded is End {
            Engine::Idle
        } else {
            Engine::Playing(source_after(s, decoded))
        },
        Engine::FadeIn(s, begin) => if decoded is End {
            Engine::Idle
        } else if fade_elapsed_millis(begin, s.time()) >= FADE_TIME_MILLIS {
            Engine::Playing(source_after(s, decoded))
        } else {
            Engine::FadeIn(source_after(s, decoded), begin)
        },
        Engine::FadeOut(s, begin) => if decoded is End {
            Engine::Idle
        } else if fade_elapsed_millis(begin, s.time()) >= FADE_TIME_MILLIS {
            Engine::Paused(source_after(s, decoded))
        } else {
            Engine::FadeOut(source_after(s, decoded), begin)
        },
    }
}

/// The samples that go to the output in one step in which the decoder gave
/// `decoded`: silence while nothing plays, else the packet at the output's
/// rate and at the volume of the moment. Nothing goes out for a packet that
/// was passed over, nor at the end of the stream.
pub open spec fn pushed_samples(engine: Engine, volume: nat, decoded: Decoded) -> Seq<i16> {
    match engine.source() {
        Some(s) => if engine.is_playing() {
            scaled(level_now(engine, volume), chunk_of(s, decoded))
        } else {
            silence()
        },
        None => silence(),
    }
}

/// The engine with its volume and its output, as the contracts see them.
pub struct PlayerView {
    pub engine: Engine,
    pub volume: nat,
    pub output: OutputView,
}

/// The kind of state that the engine is in.
#[derive(Copy, Clone, Debug, PartialEq, Eq, Structural)]
pub enum Phase {
    Idle,
    Paused,
    Playing,
    FadeIn,
    FadeOut,
}

/// The phase of an engine state.
pub open spec fn phase_of(engine: Engine) -> Phase {
    match engine {
        Engine::Idle => Phase::Idle,
        Engine::Paused(_) => Phase::Paused,
        Engine::Playing(_) => Phase::Playing,
        Engine::FadeIn(_, _) => Phase::FadeIn,
        Engine::FadeOut(_, _) => Phase::FadeOut,
    }
}

#[derive(Copy, Clone, Debug)]
enum PlayerState {
    FadeIn(AudioSource, PlaybackPos),
    Playing(AudioSource),
    FadeOut(AudioSource, PlaybackPos),
    Paused(AudioSource),
    Idle,
}

impl View for PlayerState {
    type V = Engine;

    closed spec fn view(&self) -> Engine {
        match *self {
            PlayerState::FadeIn(s, begin) => Engine::FadeIn(s@, begin.nanos()),
            PlayerState::Playing(s) => Engine::Playing(s@),
            PlayerState::FadeOut(s, begin) => Engine::FadeOut(s@, begin.nanos()),
            PlayerState::Paused(s) => Engine::Paused(s@),
            PlayerState::Idle => Engine::Idle,
        }
    }
}

/// The playback engine.
#[derive(Debug)]
pub struct Player {
    output: AudioOutput,
    state: PlayerState,
    volume: Volume,
}

impl View for Player {
    type V = PlayerView;

    closed spec fn view(&self) -> PlayerView {
        PlayerView { engine: self.state@, volume: self.volume.level(), output: self.output@ }
    }
}

/// Whole milliseconds from `begin` to `current`; none where `current` lies before `begin`.
fn fade_elapsed(begin: PlaybackPos, current: PlaybackPos) -> (elapsed: u128)
    ensures
        elapsed == fade_elapsed_millis(begin.nanos(), current.nanos()),
{
    current.span().saturating_sub(begin.span()).as_millis()
}

/// The part of a fade that is over after `elapsed` milliseconds.
fn progress(elapsed: u128) -> (part: u32)
    ensures
        part == fade_progress(elapsed as nat),
        part <= FADE_TIME_MILLIS,
{
    if elapsed < FADE_TIME_MILLIS as u128 {
        elapsed as u32
    } else {
        FADE_TIME_MILLIS as u32
    }
}

/// The volume `elapsed` milliseconds into a fade-in to `target`.
fn fade_in_volume(target: Volume, elapsed: u128) -> (volume: Volume)
    ensures
        volume.level() == fade_in_level(target.level(), elapsed as nat),
{
    let part: u32 = progress(elapsed);
    let amt: u32 = target.amount() as u32;
    assert(2 * amt * part <= 2 * 15 * 500) by (nonlinear_arith)
        requires
            amt <= 15,
            part <= 500,
    ;
    Volume::new(((2 * amt * part + 500) / 1000) as u8)
}

/// The volume `elapsed` milliseconds into a fade-out from `target`.
fn fade_out_volume(target: Volume, elapsed: u128) -> (volume: Volume)
    ensures
        volume.level() == fade_out_level(target.level(), elapsed as nat),
{
    let left: u32 = 500 - progress(elapsed);
    let amt: u32 = target.amount() as u32;
    assert(2 * amt * left <= 2 * 15 * 500) by (nonlinear_arith)
        requires
            amt <= 15,
            left <= 500,
    ;
    Volume::new(((2 * amt * left + 500) / 1000) as u8)
}

/// Takes in what the decoder gave and attenuates the samples to `volume`.
fn play_chunk(source: &mut AudioSource, decoded: Decoded, volume: Volume) -> (chunk: Option<
    Vec<i16>,
>)
    requires
        old(source).accepts(decoded),
    ensures
        final(source)@ == source_after(old(source)@, decoded),
        chunk is None <==> decoded is End,
        chunk matches Some(samples) ==> samples@ == scaled(
            volume.level(),
            chunk_of(old(source)@, decoded),
        ),
{
    match source.next_chunk(decoded) {
        Some(mut samples) => {
            let ghost plain: Seq<i16> = samples@;
            let mut i: usize = 0;
            while i < samples.len()
                invariant
                    i <= samples@.len(),
                    samples@.len() == plain.len(),
                    forall|k: int| 0 <= k < i ==> samples@[k] == attenuated(volume.level(), plain[k]),
                    forall|k: int| i <= k < plain.len() ==> samples@[k] == plain[k],
                decreases samples@.len() - i,
            {
                let attenuated: i16 = volume.apply(samples[i]);
                samples.set(i, attenuated);
                i = i + 1;
            }
            assert(samples@ =~= scaled(volume.level(), plain));
            Some(samples)
        },
        None => None,
    }
}

/// A buffer of silence.
fn muted() -> (buf: Vec<i16>)
    ensures
        buf@ == silence(),
{
    let mut buf: Vec<i16> = Vec::new();
    let mut i: usize = 0;
    while i < MUTED_BUF_LEN
        invariant
            i <= MUTED_BUF_LEN,
            buf@.len() == i,
            forall|k: int| 0 <= k < i ==> buf@[k] == 0i16,
        decreases MUTED_BUF_LEN - i,
    {
        buf.push(0);
        i = i + 1;
    }
    assert(buf@ =~= silence());
    buf
}

/// A position that is not later than where a source stands lies at a frame
/// that is not later either.
pub proof fn lemma_earlier_time_earlier_frame(source: SourceView, nanos: nat)
    requires
        source.rate > 0,
        nanos <= source.time(),
    ensures
        frame_index(source.rate, nanos) <= source.position,
{
    let micros = 1_000_000 * source.position / source.rate;
    let m = nanos / 1_000;
    assert(m <= micros);
    assert(micros * source.rate <= 1_000_000 * source.position) by (nonlinear_arith)
        requires
            source.rate > 0,
            micros == 1_000_000 * source.position / source.rate,
    ;
    assert(m * source.rate <= micros * source.rate) by (nonlinear_arith)
        requires
            m <= micros,
    ;
    assert(m * source.rate / 1_000_000 <= source.position) by (nonlinear_arith)
        requires
            m * source.rate <= 1_000_000 * source.position,
    ;
}

impl Player {
    /// An idle engine that plays to `output` at `volume`.
    pub fn new(output: AudioOutput, volume: Volume) -> (player: Player)
        ensures
            player@ == (PlayerView {
                engine: Engine::Idle,
                volume: volume.level(),
                output: output@,
            }),
    {
        Player { output, state: PlayerState::Idle, volume }
    }

    /// The volume, to read or to change.
    pub fn volume(&mut self) -> (volume: &mut Volume)
        ensures
            volume.level() == old(self)@.volume,
            final(self)@ == (PlayerView { volume: final(volume).level(), ..old(self)@ }),
    {
        &mut self.volume
    }

    /// The volume as it stands.
    pub fn current_volume(&self) -> (volume: Volume)
        ensures
            volume.level() == self@.volume,
    {
        self.volume
    }

    /// The pacing state of the output, to read or to change.
    pub fn output(&mut self) -> (output: &mut AudioOutput)
        ensures
            output@ == old(self)@.output,
            final(self)@ == (PlayerView { output: final(output)@, ..old(self)@ }),
    {
        &mut self.output
    }

    /// Takes a file that was opened, and sought to `start_pos` where there is
    /// one: the engine holds it paused. `opened` is the file's rate in frames
    /// per second, or why the file could not be opened or sought. On an error
    /// the engine stays as it is.
    pub fn load_file(
        &mut self,
        opened: Result<u64, AudioSourceError>,
        start_pos: Option<PlaybackPos>,
    ) -> (result: Result<(), AudioSourceError>)
        ensures
            match loaded(opened, old(self)@.output.rate, start_nanos(start_pos)) {
                Ok(source) => result is Ok && final(self)@ == (PlayerView {
                    engine: Engine::Paused(source),
                    ..old(self)@
                }),
                Err(e) => result == Err::<(), AudioSourceError>(e) && final(self)@ == old(self)@,
            },
    {
        let rate: u64 = match opened {
            Ok(rate) => rate,
            Err(e) => {
                return Err(e);
            },
        };
        if rate == 0 {
            return Err(AudioSourceError::Vorbis);
        }
        let mut source = AudioSource::new(rate, self.output.sample_rate());
        if let Some(start_pos) = start_pos {
            match frame_at(rate, start_pos) {
                Some(frame) => {
                    source.seek(frame);
                },
                None => {
                    return Err(AudioSourceError::Vorbis);
                },
            }
        }
        self.state = PlayerState::Paused(source);
        Ok(())
    }

    /// The frame that the decoder is to be sought to for going back by `time`,
    /// or `None` where the engine holds no source.
    pub fn rewind_target(&self, time: Span) -> (frame: Option<u64>)
        ensures
            match self@.engine.source() {
                Some(source) => frame == Some(source.rewind_frame(time.nanos()) as u64)
                    && source.rewind_frame(time.nanos()) <= u64::MAX,
                None => frame is None,
            },
    {
        match self.state {
            PlayerState::Paused(s)
            | PlayerState::FadeOut(s, _)
            | PlayerState::Playing(s)
            | PlayerState::FadeIn(s, _) => {
                let rate: u64 = s.sample_rate();
                match s.current_pos().span().checked_sub(time) {
                    Some(earlier) => {
                        proof {
                            lemma_earlier_time_earlier_frame(s@, earlier.nanos());
                        }
                        frame_at(rate, PlaybackPos::from_span(earlier))
                    },
                    None => {
                        assert(frame_index(rate as nat, 0) == 0) by (nonlinear_arith);
                        Some(0)
                    },
                }
            },
            PlayerState::Idle => None,
        }
    }

    /// Goes back by `time`, to the start where the source is less than `time`
    /// in. `sought` says how seeking the decoder to `rewind_target(time)` went.
    /// On an error, and with no source, the engine stays as it is.
    pub fn rewind(&mut self, time: Span, sought: Result<(), AudioSourceError>) -> (result: Result<
        (),
        AudioSourceError,
    >)
        ensures
            final(self)@ == (PlayerView {
                engine: after_rewind(old(self)@.engine, time.nanos(), sought),
                ..old(self)@
            }),
            result == if old(self)@.engine is Idle {
                Ok::<(), AudioSourceError>(())
            } else {
                sought
            },
    {
        let frame: u64 = match self.rewind_target(time) {
            Some(frame) => frame,
            None => {
                return Ok(());
            },
        };
        if let Err(e) = sought {
            return Err(e);
        }
        match self.state {
            PlayerState::Paused(mut s) => {
                s.seek(frame);
                self.state = PlayerState::Paused(s);
            },
            PlayerState::FadeOut(mut s, begin) => {
                s.seek(frame);
                self.state = PlayerState::FadeOut(s, begin);
            },
            PlayerState::Playing(mut s) => {
                s.seek(frame);
                self.state = PlayerState::Playing(s);
            },
            PlayerState::FadeIn(mut s, begin) => {
                s.seek(frame);
                self.state = PlayerState::FadeIn(s, begin);
            },
            PlayerState::Idle => {},
        }
        sought
    }

    /// Fades out what plays or fades in. Does nothing otherwise.
    pub fn pause(&mut self)
        ensures
            final(self)@ == (PlayerView { engine: after_pause(old(self)@.engine), ..old(self)@ }),
    {
        match self.state {
            PlayerState::Playing(s) | PlayerState::FadeIn(s, _) => {
                let pos = s.current_pos();
                self.state = PlayerState::FadeOut(s, pos);
            },
            _ => {},
        }
    }

    /// Fades in what is paused or fades out. Does nothing otherwise.
    pub fn play(&mut self)
        ensures
            final(self)@ == (PlayerView { engine: after_play(old(self)@.engine), ..old(self)@ }),
    {
        match self.state {
            PlayerState::Paused(s) => {
                let pos = s.current_pos();
                self.state = PlayerState::FadeIn(s, pos);
            },
            PlayerState::FadeOut(s, pos) => {
                self.state = PlayerState::FadeIn(s, pos);
            },
            _ => {},
        }
    }

    /// Whether the engine holds no source.
    pub fn idle(&self) -> (idle: bool)
        ensures
            idle == (self@.engine is Idle),
    {
        match self.state {
            PlayerState::Idle => true,
            _ => false,
        }
    }

    /// Whether sound goes out: the engine plays or is in a fade.
    pub fn playing(&self) -> (playing: bool)
        ensures
            playing == self@.engine.is_playing(),
    {
        match self.state {
            PlayerState::FadeOut(_, _) | PlayerState::FadeIn(_, _) | PlayerState::Playing(_) => true,
            _ => false,
        }
    }

    /// The kind of state that the engine is in.
    pub fn phase(&self) -> (phase: Phase)
        ensures
            phase == phase_of(self@.engine),
    {
        match self.state {
            PlayerState::Idle => Phase::Idle,
            PlayerState::Paused(_) => Phase::Paused,
            PlayerState::Playing(_) => Phase::Playing,
            PlayerState::FadeIn(_, _) => Phase::FadeIn,
            PlayerState::FadeOut(_, _) => Phase::FadeOut,
        }
    }

    /// Where the source stands, or `None` where the engine holds none.
    pub fn playback_pos(&self) -> (pos: Option<PlaybackPos>)
        ensures
            match self@.engine.source() {
                Some(source) => pos matches Some(p) && p.nanos() == source.time(),
                None => pos is None,
            },
    {
        match self.state {
            PlayerState::Paused(s)
            | PlayerState::FadeOut(s, _)
            | PlayerState::Playing(s)
            | PlayerState::FadeIn(s, _) => Some(s.current_pos()),
            PlayerState::Idle => None,
        }
    }

    /// Whether `decoded` can be pushed.
    pub fn accepts(&self, decoded: &Decoded) -> (ok: bool)
        ensures
            ok == self@.engine.accepts(*decoded),
    {
        match self.state {
            PlayerState::FadeOut(s, _) | PlayerState::FadeIn(s, _) | PlayerState::Playing(s) => {
                match decoded {
                    Decoded::Samples(samples) => samples.len() % 2 == 0 && s.can_take(
                        samples.len() / 2,
                    ),
                    _ => true,
                }
            },
            _ => true,
        }
    }

    /// One step of playback, to be taken again and again. `decoded` is what
    /// the decoder gave for this step; it is looked at only while sound goes
    /// out. Returns the samples to write to the output; where there are none,
    /// nothing is to be written.
    pub fn push_samples(&mut self, decoded: Decoded) -> (samples: Vec<i16>)
        requires
            old(self)@.engine.accepts(decoded),
        ensures
            final(self)@ == (PlayerView {
                engine: pushed_engine(old(self)@.engine, decoded),
                ..old(self)@
            }),
            samples@ == pushed_samples(old(self)@.engine, old(self)@.volume, decoded),
    {
        match self.state {
            PlayerState::FadeIn(mut srr, begin) => {
                let elapsed: u128 = fade_elapsed(begin, srr.current_pos());
                let fade_vol = fade_in_volume(self.volume, elapsed);
                match play_chunk(&mut srr, decoded, fade_vol) {
                    Some(samples) => {
                        if elapsed >= FADE_TIME_MILLIS as u128 {
                            self.state = PlayerState::Playing(srr);
                        } else {
                            self.state = PlayerState::FadeIn(srr, begin);
                        }
                        samples
                    },
                    None => {
                        self.state = PlayerState::Idle;
                        Vec::new()
                    },
                }
            },
            PlayerState::FadeOut(mut srr, begin) => {
                let elapsed: u128 = fade_elapsed(begin, srr.current_pos());
                let fade_vol = fade_out_volume(self.volume, elapsed);
                match play_chunk(&mut srr, decoded, fade_vol) {
                    Some(samples) => {
                        if elapsed >= FADE_TIME_MILLIS as u128 {
                            self.state = PlayerState::Paused(srr);
                        } else {
                            self.state = PlayerState::FadeOut(srr, begin);
                        }
                        samples
                    },
                    None => {
                        self.state = PlayerState::Idle;
                        Vec::new()
                    },
                }
            },
            PlayerState::Playing(mut srr) => {
                match play_chunk(&mut srr, decoded, self.volume) {
                    Some(samples) => {
                        self.state = PlayerState::Playing(srr);
                        samples
                    },
                    None => {
                        self.state = PlayerState::Idle;
                        Vec::new()
                    },
                }
            },
            PlayerState::Paused(_) | PlayerState::Idle => muted(),
        }
    }
}

/// The state after a rewind by `nanos`, where seeking the decoder went as
/// `sought` says.
pub open spec fn after_rewind(engine: Engine, nanos: nat, sought: Result<(), AudioSourceError>) -> Engine {
    match engine.source() {
        Some(source) => if sought is Ok {
            engine.with_source(source.moved_to(source.rewind_frame(nanos)))
        } else {
            engine
        },
        None => engine,
    }
}

/// The start position in nanoseconds.
pub open spec fn start_nanos(start_pos: Option<PlaybackPos>) -> Option<nat> {
    match start_pos {
        Some(pos) => Some(pos.nanos()),
        None => None,
    }
}

/// A fade-in begins in silence, ends at the volume it fades to, and never
/// goes beyond it; a fade-out is the same fade run backwards.
pub proof fn lemma_fade_levels(target: nat, elapsed: nat)
    ensures
        fade_in_level(target, 0) == 0,
        fade_out_level(target, 0) == target,
        fade_in_level(target, elapsed) <= target,
        fade_out_level(target, elapsed) <= target,
        elapsed >= FADE_TIME_MILLIS ==> fade_in_level(target, elapsed) == target,
        elapsed >= FADE_TIME_MILLIS ==> fade_out_level(target, elapsed) == 0,
        fade_out_level(target, elapsed) == fade_in_level(
            target,
            (FADE_TIME_MILLIS - fade_progress(elapsed)) as nat,
        ),
{
    let part = fade_progress(elapsed);
    let none = fade_progress(0);
    let left = (FADE_TIME_MILLIS - part) as nat;
    let all = (FADE_TIME_MILLIS - none) as nat;
    assert(2 * target * none == 0) by (nonlinear_arith)
        requires
            none == 0,
    ;
    assert(2 * target * all == 1000 * target) by (nonlinear_arith)
        requires
            all == 500,
    ;
    assert(0 <= 2 * target * part <= 1000 * target) by (nonlinear_arith)
        requires
            0 <= part <= 500,
    ;
    assert(0 <= 2 * target * left <= 1000 * target) by (nonlinear_arith)
        requires
            0 <= left <= 500,
    ;
    assert(part == 500 ==> 2 * target * part == 1000 * target) by (nonlinear_arith);
    assert(left == 0 ==> 2 * target * left == 0) by (nonlinear_arith);
    assert(fade_progress(left) == left);
    assert(fade_in_level(target, 0) == ((2 * target * none + 500) / 1000) as nat);
    assert(fade_in_level(target, elapsed) == ((2 * target * part + 500) / 1000) as nat);
}

/// A fade goes one way: later in a fade-in the volume is no lower, later in
/// a fade-out no higher.
pub proof fn lemma_fade_is_monotone(target: nat, earlier: nat, later: nat)
    requires
        earlier <= later,
    ensures
        fade_in_level(target, earlier) <= fade_in_level(target, later),
        fade_out_level(target, earlier) >= fade_out_level(target, later),
{
    let a = fade_progress(earlier);
    let b = fade_progress(later);
    let a_left = (FADE_TIME_MILLIS - a) as nat;
    let b_left = (FADE_TIME_MILLIS - b) as nat;
    assert(2 * target * a <= 2 * target * b) by (nonlinear_arith)
        requires
            a <= b,
    ;
    assert(2 * target * b_left <= 2 * target * a_left) by (nonlinear_arith)
        requires
            b_left <= a_left,
    ;
    assert(fade_in_level(target, earlier) == ((2 * target * a + 500) / 1000) as nat);
    assert(fade_in_level(target, later) == ((2 * target * b + 500) / 1000) as nat);
}

/// Whatever the engine does at `pause`, the next samples go out at the full
/// volume: the fade-out sets in where the source stands.
pub proof fn lemma_pause_fades_from_full_volume(engine: Engine, volume: nat)
    requires
        engine is Playing || engine is FadeIn,
    ensures
        after_pause(engine) is FadeOut,
        level_now(after_pause(engine), volume) == volume,
{
    lemma_fade_levels(volume, 0);
}

/// A fade-out that `play` turns round goes on as a fade-in that set in when
/// the fade-out did, with the source where it stands.
pub proof fn lemma_play_turns_a_fade_out_round(source: SourceView, begin: nat)
    ensures
        after_play(Engine::FadeOut(source, begin)) == Engine::FadeIn(source, begin),
        after_pause(Engine::FadeIn(source, begin)) == Engine::FadeOut(source, source.time()),
        after_play(Engine::Paused(source)) == Engine::FadeIn(source, source.time()),
{
}

} // verus!
