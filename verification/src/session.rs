//! The session: which token lies on the reader, and what the engine is to do
//! about it.
//!
//! The session takes one event at a time and decides. It owns the engine and
//! the state of the card, and it does no input or output of its own: where an
//! event calls for a file to be opened or the decoder to be sought, the caller
//! asks the session what is needed, does it, and hands the outcome in together
//! with the event. Times come in from the caller's clocks: the wall clock for
//! the coming and going of tokens, a monotonic clock for the idle timeout.

use crate::led::LedCommand;
use crate::led::LedView;
use crate::media_definition::path_of;
use crate::media_definition::MediaDefinition;
use crate::player::after_pause;
use crate::player::after_play;
use crate::player::after_rewind;
use crate::player::loaded;
use crate::player::AudioSourceError;
use crate::player::Engine;
use crate::player::PlaybackPos;
use crate::player::Player;
use crate::player::PlayerView;
use crate::player::FADE_TIME_MILLIS;
use crate::rfid::Uid;
use crate::save_state::KeptPlayback;
use crate::save_state::SaveState;
use crate::save_state::kept_millis;
use crate::time::elapsed_since;
use crate::time::Span;
use crate::time::NANOS_PER_MILLI;
use crate::time::NANOS_PER_SEC;
use crate::volume::lowered;
use crate::volume::raised;
use std::ops::AddAssign;
use std::ops::SubAssign;
use vstd::prelude::*;

verus! {

/// The pause below which a resumed track is not wound back for context, in seconds.
pub const MIN_TIME_FOR_CONTEXT_SECS: u64 = 10;

/// The most that a resumed track is wound back for context, in seconds.
pub const MAX_CONTEXT_TIME_SECS: u64 = 60;

/// How many times longer a pause is than the context that it calls for.
pub const PAUSE_TO_CONTEXT_RATIO: u32 = 10;

/// How far a track is wound back when it resumes after a pause of
/// `stop_nanos` nanoseconds. The part of the pause above the minimum, divided
/// by the ratio, is the context, which is never more than the maximum. Two
/// fades come on top: the one before the pause and the one that is to come
/// are not fully heard.
pub open spec fn rewind_nanos(stop_nanos: nat) -> nat {
    let floor = MIN_TIME_FOR_CONTEXT_SECS * NANOS_PER_SEC;
    let relevant = if stop_nanos >= floor {
        stop_nanos - floor
    } else {
        0
    };
    let context = relevant / (PAUSE_TO_CONTEXT_RATIO as int);
    let cap = MAX_CONTEXT_TIME_SECS * NANOS_PER_SEC;
    ((if context <= cap {
        context
    } else {
        cap
    }) + 2 * FADE_TIME_MILLIS * NANOS_PER_MILLI) as nat
}

/// How far a track is wound back when it resumes after a pause of `stop_time`.
pub fn resume_rewind_time(stop_time: Span) -> (rewind: Span)
    ensures
        rewind.nanos() == rewind_nanos(stop_time.nanos()),
{
    let relevant = stop_time.saturating_sub(Span::from_secs(MIN_TIME_FOR_CONTEXT_SECS));
    let context = relevant.div(PAUSE_TO_CONTEXT_RATIO).min(Span::from_secs(MAX_CONTEXT_TIME_SECS));
    let fades = Span::from_millis(2 * FADE_TIME_MILLIS);
    match context.checked_add(fades) {
        Some(rewind) => rewind,
        None => fades,
    }
}

/// Something that happened around the player.
#[derive(Copy, Clone, Debug, PartialEq, Eq, Structural)]
pub enum Event {
    /// A token was put on the reader.
    Play(Uid),
    /// The token was taken off the reader.
    Stop,
    /// The dial was turned one click up.
    IncreaseVolume,
    /// The dial was turned one click down.
    DecreaseVolume,
    /// The button was pressed.
    Shutdown,
}

/// What lies on the reader, or lay there last. The time is that of the
/// removal, on the wall clock.
#[derive(Copy, Clone, Debug, PartialEq, Eq, Structural)]
pub enum CardState {
    Current(Uid),
    Previous(Uid, Span),
    Nothing,
}

/// The state of the card with the time of removal in nanoseconds.
pub enum CardView {
    Current(Uid),
    Previous(Uid, nat),
    Nothing,
}

impl View for CardState {
    type V = CardView;

    open spec fn view(&self) -> CardView {
        match *self {
            CardState::Current(uid) => CardView::Current(uid),
            CardState::Previous(uid, removed) => CardView::Previous(uid, removed.nanos()),
            CardState::Nothing => CardView::Nothing,
        }
    }
}

/// The token that lies on the reader or lay there last.
pub open spec fn token_of(card: CardView) -> Option<Uid> {
    match card {
        CardView::Current(uid) => Some(uid),
        CardView::Previous(uid, _) => Some(uid),
        CardView::Nothing => None,
    }
}

/// What the caller is to do before it hands an event in.
#[derive(Copy, Clone, Debug, PartialEq, Eq)]
pub enum IoRequest<'a> {
    /// Nothing.
    Nothing,
    /// Seek the decoder to this frame.
    Seek(u64),
    /// Open the file at this path.
    Open(&'a Vec<u8>),
}

/// What the caller is to do, with the path as bytes.
pub enum IoNeed {
    Nothing,
    Seek(nat),
    Open(Seq<u8>),
}

impl<'a> View for IoRequest<'a> {
    type V = IoNeed;

    open spec fn view(&self) -> IoNeed {
        match *self {
            IoRequest::Nothing => IoNeed::Nothing,
            IoRequest::Seek(frame) => IoNeed::Seek(frame as nat),
            IoRequest::Open(path) => IoNeed::Open(path@),
        }
    }
}

/// How what the session asked for went.
#[derive(Copy, Clone, Debug, PartialEq, Eq)]
pub enum IoReply {
    /// Nothing was done.
    Nothing,
    /// The decoder was sought, or could not be.
    Sought(Result<(), AudioSourceError>),
    /// The file was opened and gave its rate in frames per second, or could
    /// not be opened.
    Opened(Result<u64, AudioSourceError>),
}

/// How the seek went that the reply tells of. A seek that was not made has failed.
pub open spec fn sought_of(reply: IoReply) -> Result<(), AudioSourceError> {
    match reply {
        IoReply::Sought(result) => result,
        _ => Err(AudioSourceError::Io),
    }
}

/// How the opening went that the reply tells of. A file that was not opened
/// could not be.
pub open spec fn opened_of(reply: IoReply) -> Result<u64, AudioSourceError> {
    match reply {
        IoReply::Opened(result) => result,
        _ => Err(AudioSourceError::Io),
    }
}

/// What came of an event, for the caller to tell whoever wants to know.
#[derive(Copy, Clone, Debug, PartialEq, Eq, Structural)]
pub enum Report {
    /// Nothing worth telling.
    Nothing,
    /// The token's track goes on from where it stood.
    Resumed,
    /// The token's track goes on, though it could not be wound back.
    RewindFailed(AudioSourceError),
    /// The token's track plays from its start.
    Started,
    /// The token's file could not be loaded.
    LoadFailed(AudioSourceError),
    /// The token has no file.
    UnknownToken,
}

/// What the session answers to an event: a blink of the light, if any, and a report.
#[derive(Copy, Clone, Debug, PartialEq, Eq, Structural)]
pub struct Reaction {
    pub led: Option<LedCommand>,
    pub report: Report,
}

/// The answer to an event with the times of the blink in nanoseconds.
pub struct ReactionView {
    pub led: Option<LedView>,
    pub report: Report,
}

impl View for Reaction {
    type V = ReactionView;

    open spec fn view(&self) -> ReactionView {
        ReactionView {
            led: match self.led {
                Some(cmd) => Some(cmd@),
                None => None,
            },
            report: self.report,
        }
    }
}

/// The session as the contracts see it. `silence_begin` is the time on the
/// monotonic clock since which nothing has played.
pub struct SessionView {
    pub player: PlayerView,
    pub media: Seq<(Uid, Seq<u8>)>,
    pub card: CardView,
    pub silence_begin: Option<nat>,
    pub stopped: bool,
    pub idle_timeout: nat,
}

/// The long blink that greets a token.
pub open spec fn greeting() -> LedView {
    LedView::Blink(500 * NANOS_PER_MILLI as nat)
}

/// The double blink that sees a token off, and the session too.
pub open spec fn farewell_blink() -> LedView {
    LedView::DoubleBlink(
        200 * NANOS_PER_MILLI as nat,
        100 * NANOS_PER_MILLI as nat,
        200 * NANOS_PER_MILLI as nat,
    )
}

/// The short blink for a click up.
pub open spec fn louder_blink() -> LedView {
    LedView::Blink(5 * NANOS_PER_MILLI as nat)
}

/// The short double blink for a click down.
pub open spec fn quieter_blink() -> LedView {
    LedView::DoubleBlink(
        5 * NANOS_PER_MILLI as nat,
        40 * NANOS_PER_MILLI as nat,
        5 * NANOS_PER_MILLI as nat,
    )
}

/// Whether the token `uid` resumes what the engine holds: it is the token
/// that lies on the reader or lay there last, and the engine holds a source.
pub open spec fn resumes(s: SessionView, uid: Uid) -> bool {
    token_of(s.card) == Some(uid) && !(s.player.engine is Idle)
}

/// The same session around another engine state.
pub open spec fn with_engine(s: SessionView, engine: Engine) -> SessionView {
    SessionView { player: PlayerView { engine, ..s.player }, ..s }
}

/// What is to be done before the event is handed in at `now`: a seek where a
/// token comes back that was taken off, the opening of its file where a token
/// comes that does not resume, nothing otherwise.
pub open spec fn io_needed(s: SessionView, event: Event, now: nat) -> IoNeed {
    match event {
        Event::Play(uid) => if resumes(s, uid) {
            match s.card {
                CardView::Previous(_, removed) => IoNeed::Seek(
                    s.player.engine.source().unwrap().rewind_frame(
                        rewind_nanos(elapsed_since(removed, now)),
                    ),
                ),
                _ => IoNeed::Nothing,
            }
        } else {
            match path_of(s.media, uid) {
                Some(path) => IoNeed::Open(path),
                None => IoNeed::Nothing,
            }
        },
        _ => IoNeed::Nothing,
    }
}

/// The session and the report after the token `uid` was put on the reader at
/// `now`. A token that resumes fades in where it stood, wound back for
/// context if it had been taken off. Any other token has its file loaded and
/// played from the start; if the file cannot be loaded the engine keeps what
/// it held and plays that; a token without a file changes nothing in the
/// engine. Either way the token is the current one.
pub open spec fn played(s: SessionView, uid: Uid, now: nat, reply: IoReply) -> (
    SessionView,
    Report,
) {
    let arrived = SessionView { card: CardView::Current(uid), ..s };
    if resumes(s, uid) {
        match s.card {
            CardView::Previous(_, removed) => {
                let time = rewind_nanos(elapsed_since(removed, now));
                let sought = sought_of(reply);
                (
                    with_engine(arrived, after_play(after_rewind(s.player.engine, time, sought))),
                    match sought {
                        Ok(_) => Report::Resumed,
                        Err(e) => Report::RewindFailed(e),
                    },
                )
            },
            _ => (with_engine(arrived, after_play(s.player.engine)), Report::Resumed),
        }
    } else {
        match path_of(s.media, uid) {
            Some(_) => match loaded(opened_of(reply), s.player.output.rate, None) {
                Ok(source) => (
                    with_engine(arrived, after_play(Engine::Paused(source))),
                    Report::Started,
                ),
                Err(e) => (
                    with_engine(arrived, after_play(s.player.engine)),
                    Report::LoadFailed(e),
                ),
            },
            None => (arrived, Report::UnknownToken),
        }
    }
}

/// The session and the answer after an event that came in at `now` on the
/// wall clock.
pub open spec fn handled(s: SessionView, event: Event, now: nat, reply: IoReply) -> (
    SessionView,
    ReactionView,
) {
    match event {
        Event::Play(uid) => {
            let (after, report) = played(s, uid, now, reply);
            (after, ReactionView { led: Some(greeting()), report })
        },
        Event::Stop => (
            SessionView {
                card: match s.card {
                    CardView::Current(uid) => CardView::Previous(uid, now),
                    other => other,
                },
                ..with_engine(s, after_pause(s.player.engine))
            },
            ReactionView { led: Some(farewell_blink()), report: Report::Nothing },
        ),
        Event::IncreaseVolume => (
            SessionView { player: PlayerView { volume: raised(s.player.volume, 1), ..s.player }, ..s },
            ReactionView { led: Some(louder_blink()), report: Report::Nothing },
        ),
        Event::DecreaseVolume => (
            SessionView {
                player: PlayerView { volume: lowered(s.player.volume, 1), ..s.player },
                ..s
            },
            ReactionView { led: Some(quieter_blink()), report: Report::Nothing },
        ),
        Event::Shutdown => (
            SessionView { stopped: true, ..with_engine(s, after_pause(s.player.engine)) },
            ReactionView { led: None, report: Report::Nothing },
        ),
    }
}

/// The session after a look at the clock at `now`, and whether it has been
/// idle for its timeout. While something plays no silence is counted. The
/// first look after the playing ended begins the count.
pub open spec fn idle_checked(s: SessionView, now: nat) -> (SessionView, bool) {
    if s.player.engine.is_playing() {
        (SessionView { silence_begin: None, ..s }, false)
    } else {
        match s.silence_begin {
            Some(begin) => (s, elapsed_since(begin, now) >= s.idle_timeout),
            None => (SessionView { silence_begin: Some(now), ..s }, false),
        }
    }
}

/// Whether the session goes on: it does until it was shut down and the last
/// fade is over.
pub open spec fn goes_on(s: SessionView) -> bool {
    !(s.stopped && !s.player.engine.is_playing())
}

/// The blink at the end of a session that ends at `now`: none where the
/// session ends because it was idle for its timeout, so as to wake nobody.
pub open spec fn parting(s: SessionView, now: nat) -> Option<LedView> {
    match s.silence_begin {
        Some(begin) => if elapsed_since(begin, now) < s.idle_timeout {
            Some(farewell_blink())
        } else {
            None
        },
        None => Some(farewell_blink()),
    }
}

/// What is kept of a session that ends at `now` on the wall clock: the token
/// with the place where its track stands and the time of its removal, or of
/// the end where it still lies on the reader. Nothing is kept without a
/// token, nor without a source.
pub open spec fn kept_playback(s: SessionView, now: nat) -> Option<KeptPlayback> {
    match s.player.engine.source() {
        Some(source) => match s.card {
            CardView::Previous(uid, removed) => Some(
                KeptPlayback {
                    uid: uid.0,
                    position_millis: kept_millis(source.time()),
                    stop_millis: kept_millis(removed),
                },
            ),
            CardView::Current(uid) => Some(
                KeptPlayback {
                    uid: uid.0,
                    position_millis: kept_millis(source.time()),
                    stop_millis: kept_millis(now),
                },
            ),
            CardView::Nothing => None,
        },
        None => None,
    }
}

/// The file that a kept session calls for, and the place in it.
pub open spec fn restore_needed(s: SessionView, saved: SaveState) -> Option<(Seq<u8>, nat)> {
    match saved.playback() {
        Some(k) => match path_of(s.media, Uid(k.uid)) {
            Some(path) => Some((path, k.position_millis * NANOS_PER_MILLI as nat)),
            None => None,
        },
        None => None,
    }
}

/// The session and the report after a kept session was taken up again. The
/// kept token counts as taken off at the kept time. Its file is loaded at the
/// kept place and held paused; a token without a file, and a file that cannot
/// be loaded, leave the engine as it is.
pub open spec fn restored(s: SessionView, saved: SaveState, opened: Result<u64, AudioSourceError>) -> (
    SessionView,
    Report,
) {
    match saved.playback() {
        Some(k) => {
            let seeded = SessionView {
                card: CardView::Previous(Uid(k.uid), k.stop_millis * NANOS_PER_MILLI as nat),
                ..s
            };
            match path_of(s.media, Uid(k.uid)) {
                Some(_) => match loaded(
                    opened,
                    s.player.output.rate,
                    Some(k.position_millis * NANOS_PER_MILLI as nat),
                ) {
                    Ok(source) => (with_engine(seeded, Engine::Paused(source)), Report::Started),
                    Err(e) => (seeded, Report::LoadFailed(e)),
                },
                None => (seeded, Report::UnknownToken),
            }
        },
        None => (s, Report::Nothing),
    }
}

/// The session.
#[derive(Debug)]
pub struct Session {
    player: Player,
    media: MediaDefinition,
    card_state: CardState,
    silence_begin: Option<Span>,
    stopped: bool,
    idle_timeout: Span,
}

impl View for Session {
    type V = SessionView;

    closed spec fn view(&self) -> SessionView {
        SessionView {
            player: self.player@,
            media: self.media@,
            card: self.card_state@,
            silence_begin: match self.silence_begin {
                Some(begin) => Some(begin.nanos()),
                None => None,
            },
            stopped: self.stopped,
            idle_timeout: self.idle_timeout.nanos(),
        }
    }
}

impl Session {
    /// A session that begins at `now` on the monotonic clock with no token
    /// and in silence.
    pub fn new(player: Player, media: MediaDefinition, idle_timeout: Span, now: Span) -> (session:
        Session)
        ensures
            session@ == (SessionView {
                player: player@,
                media: media@,
                card: CardView::Nothing,
                silence_begin: Some(now.nanos()),
                stopped: false,
                idle_timeout: idle_timeout.nanos(),
            }),
    {
        Session {
            player,
            media,
            card_state: CardState::Nothing,
            silence_begin: Some(now),
            stopped: false,
            idle_timeout,
        }
    }

    /// The engine, to read or to drive.
    pub fn player(&mut self) -> (player: &mut Player)
        ensures
            player@ == old(self)@.player,
            final(self)@ == (SessionView { player: final(player)@, ..old(self)@ }),
    {
        &mut self.player
    }

    /// The state of the card.
    pub fn card_state(&self) -> (card: CardState)
        ensures
            card@ == self@.card,
    {
        self.card_state
    }

    /// Whether the session goes on.
    pub fn running(&self) -> (running: bool)
        ensures
            running == goes_on(self@),
    {
        !(self.stopped && !self.player.playing())
    }

    /// Whether sound goes out.
    pub fn playing(&self) -> (playing: bool)
        ensures
            playing == self@.player.engine.is_playing(),
    {
        self.player.playing()
    }

    /// What the caller is to do before it hands `event` in at `now`.
    pub fn io_request(&self, event: &Event, now: Span) -> (request: IoRequest<'_>)
        ensures
            request@ == io_needed(self@, *event, now.nanos()),
    {
        match *event {
            Event::Play(uid) => {
                if self.resumes(uid) {
                    match self.card_state {
                        CardState::Previous(_, removed) => {
                            let time = resume_rewind_time(now.saturating_sub(removed));
                            match self.player.rewind_target(time) {
                                Some(frame) => IoRequest::Seek(frame),
                                None => IoRequest::Nothing,
                            }
                        },
                        _ => IoRequest::Nothing,
                    }
                } else {
                    match self.media.get(uid) {
                        Some(path) => IoRequest::Open(path),
                        None => IoRequest::Nothing,
                    }
                }
            },
            _ => IoRequest::Nothing,
        }
    }

    /// Whether the token `uid` resumes what the engine holds.
    fn resumes(&self, uid: Uid) -> (yes: bool)
        ensures
            yes == resumes(self@, uid),
    {
        let same = match self.card_state {
            CardState::Current(old_uid) => old_uid == uid,
            CardState::Previous(old_uid, _) => old_uid == uid,
            CardState::Nothing => false,
        };
        same && !self.player.idle()
    }

    /// Takes in `event`, which came at `now` on the wall clock. `reply` tells
    /// how it went with what `io_request` asked for this event.
    pub fn handle(&mut self, event: Event, now: Span, reply: IoReply) -> (reaction: Reaction)
        ensures
            (final(self)@, reaction@) == handled(old(self)@, event, now.nanos(), reply),
    {
        match event {
            Event::Play(uid) => {
                let report = if self.resumes(uid) {
                    let report = match self.card_state {
                        CardState::Previous(_, removed) => {
                            let time = resume_rewind_time(now.saturating_sub(removed));
                            let sought = match reply {
                                IoReply::Sought(result) => result,
                                _ => Err(AudioSourceError::Io),
                            };
                            match self.player.rewind(time, sought) {
                                Ok(_) => Report::Resumed,
                                Err(e) => Report::RewindFailed(e),
                            }
                        },
                        _ => Report::Resumed,
                    };
                    self.player.play();
                    report
                } else {
                    match self.media.get(uid) {
                        Some(_) => {
                            let opened = match reply {
                                IoReply::Opened(result) => result,
                                _ => Err(AudioSourceError::Io),
                            };
                            let result = self.player.load_file(opened, None);
                            self.player.play();
                            match result {
                                Ok(_) => Report::Started,
                                Err(e) => Report::LoadFailed(e),
                            }
                        },
                        None => Report::UnknownToken,
                    }
                };
                self.card_state = CardState::Current(uid);
                Reaction { led: Some(LedCommand::Blink(Span::from_millis(500))), report }
            },
            Event::Stop => {
                if let CardState::Current(uid) = self.card_state {
                    self.card_state = CardState::Previous(uid, now);
                }
                self.player.pause();
                Reaction {
                    led: Some(
                        LedCommand::DoubleBlink(
                            Span::from_millis(200),
                            Span::from_millis(100),
                            Span::from_millis(200),
                        ),
                    ),
                    report: Report::Nothing,
                }
            },
            Event::IncreaseVolume => {
                let volume = self.player.volume();
                volume.add_assign(1);
                Reaction {
                    led: Some(LedCommand::Blink(Span::from_millis(5))),
                    report: Report::Nothing,
                }
            },
            Event::DecreaseVolume => {
                let volume = self.player.volume();
                volume.sub_assign(1);
                Reaction {
                    led: Some(
                        LedCommand::DoubleBlink(
                            Span::from_millis(5),
                            Span::from_millis(40),
                            Span::from_millis(5),
                        ),
                    ),
                    report: Report::Nothing,
                }
            },
            Event::Shutdown => {
                self.player.pause();
                self.stopped = true;
                Reaction { led: None, report: Report::Nothing }
            },
        }
    }

    /// Looks at the monotonic clock, which stands at `now`, and returns
    /// whether the session has been idle for its timeout and is to end.
    pub fn idle_check(&mut self, now: Span) -> (timed_out: bool)
        ensures
            (final(self)@, timed_out) == idle_checked(old(self)@, now.nanos()),
    {
        if self.player.playing() {
            self.silence_begin = None;
            false
        } else {
            match self.silence_begin {
                Some(begin) => now.saturating_sub(begin).as_nanos() >= self.idle_timeout.as_nanos(),
                None => {
                    self.silence_begin = Some(now);
                    false
                },
            }
        }
    }

    /// The blink at the end of the session, which ends at `now` on the
    /// monotonic clock.
    pub fn farewell(&self, now: Span) -> (led: Option<LedCommand>)
        ensures
            match parting(self@, now.nanos()) {
                Some(blink) => led matches Some(cmd) && cmd@ == blink,
                None => led is None,
            },
    {
        let awake = match self.silence_begin {
            Some(begin) => now.saturating_sub(begin).as_nanos() < self.idle_timeout.as_nanos(),
            None => true,
        };
        if awake {
            Some(
                LedCommand::DoubleBlink(
                    Span::from_millis(200),
                    Span::from_millis(100),
                    Span::from_millis(200),
                ),
            )
        } else {
            None
        }
    }

    /// Writes into `saved` what is kept of the session, which ends at `now`
    /// on the wall clock.
    pub fn snapshot(&self, saved: &mut SaveState, now: Span)
        ensures
            final(saved).playback() == kept_playback(self@, now.nanos()),
            final(saved).volume_level() == self@.player.volume,
    {
        let playback = match (self.card_state, self.player.playback_pos()) {
            (CardState::Previous(uid, removed), Some(pos)) => Some((uid, pos, removed)),
            (CardState::Current(uid), Some(pos)) => Some((uid, pos, now)),
            _ => None,
        };
        saved.set_playback_state(playback);
        saved.set_volume(self.player.current_volume());
    }

    /// The file that the kept session `saved` calls for, and the place in it
    /// to seek to once it is open.
    pub fn restore_request(&self, saved: &SaveState) -> (request: Option<(&Vec<u8>, PlaybackPos)>)
        ensures
            match restore_needed(self@, *saved) {
                Some((path, nanos)) => request matches Some((p, pos)) && p@ == path && pos.nanos()
                    == nanos,
                None => request is None,
            },
    {
        match saved.playback_state() {
            Some((uid, pos, _)) => match self.media.get(uid) {
                Some(path) => Some((path, pos)),
                None => None,
            },
            None => None,
        }
    }

    /// Takes up the kept session `saved`. `opened` tells how it went with
    /// what `restore_request` asked for.
    pub fn restore(&mut self, saved: &SaveState, opened: Result<u64, AudioSourceError>) -> (report:
        Report)
        ensures
            (final(self)@, report) == restored(old(self)@, *saved, opened),
    {
        match saved.playback_state() {
            Some((uid, pos, stop_time)) => {
                self.card_state = CardState::Previous(uid, stop_time);
                match self.media.get(uid) {
                    Some(_) => match self.player.load_file(opened, Some(pos)) {
                        Ok(_) => Report::Started,
                        Err(e) => Report::LoadFailed(e),
                    },
                    None => Report::UnknownToken,
                }
            },
            None => Report::Nothing,
        }
    }
}

/// A pause of up to the minimum is wound back by the two fades alone; from
/// the pause that fills the maximum on, by the maximum and the two fades; and
/// a longer pause is never wound back by less than a shorter one.
pub proof fn lemma_rewind_bounds(shorter: nat, longer: nat)
    requires
        shorter <= longer,
    ensures
        rewind_nanos(shorter) <= rewind_nanos(longer),
        NANOS_PER_SEC <= rewind_nanos(shorter) <= 61 * NANOS_PER_SEC,
        shorter <= MIN_TIME_FOR_CONTEXT_SECS * NANOS_PER_SEC ==> rewind_nanos(shorter)
            == NANOS_PER_SEC,
        shorter >= 610 * NANOS_PER_SEC ==> rewind_nanos(shorter) == 61 * NANOS_PER_SEC,
{
}

} // verus!
