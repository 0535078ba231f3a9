//! The countdown controller: three phases, the time left, and the commands
//! that each step sends to the music channel and to the alert channel.
//!
//! The controller reads no clock. Every step that depends on the time takes
//! the present moment as a [`Span`] measured from a fixed origin on a
//! monotonic clock, and accounts for the time gone by since the moment it
//! recorded last, so late or merged ticks lose nothing.

use vstd::prelude::*;
use crate::music_player::MusicPlayerMessage;
use crate::span::clamped_sub;
use crate::span::max_nanos;
use crate::span::Span;
use crate::volume::Volume;

verus! {

/// Ticks per second of the periodic wake-up.
pub const FPS: u64 = 30;

/// Milliseconds in one second.
pub const MILLISEC: u64 = 1000;

/// Seconds in one minute.
pub const MINUTE: u64 = 60;

/// Seconds in one hour.
pub const HOUR: u64 = 3600;

/// The periodic wake-up that drives the countdown: the time between ticks.
#[derive(Clone, Copy, Debug, PartialEq, Eq)]
pub struct Timer {
    duration: Span,
}

impl Timer {
    /// The time between two ticks.
    pub closed spec fn interval(&self) -> Span {
        self.duration
    }

    /// A wake-up every `duration`.
    pub fn new(duration: Span) -> (r: Timer)
        ensures
            r.interval() == duration,
    {
        Timer { duration }
    }

    /// The time between two ticks.
    pub fn duration(&self) -> (r: Span)
        ensures
            r == self.interval(),
    {
        self.duration
    }
}

/// What the user or the tick source asks of the controller.
#[derive(Clone, Copy, Debug, PartialEq, Eq)]
pub enum Message {
    /// Start the countdown.
    Start,
    /// Stop the running countdown.
    Stop,
    /// Silence the alert.
    AlertStop,
    /// Clear the time left.
    Reset,
    /// One tick.
    Update,
    /// One minute more.
    OneMinute,
    /// Ten minutes more.
    TenMinute,
    /// A new loudness for the music.
    BGMVolumeChange(Volume),
}

/// The phase of the countdown.
#[derive(Clone, Copy, Debug, PartialEq, Eq, Structural)]
pub enum TickState {
    /// The countdown is frozen and no sound plays.
    Stopped,
    /// The countdown decreases and the music plays.
    Ticking,
    /// The countdown has run out and the alert plays.
    Alert,
}

/// The commands that one step sends: at most one to each channel.
#[derive(Clone, Debug, PartialEq, Eq)]
pub struct AudioCommands {
    /// For the music channel.
    pub bgm: Option<MusicPlayerMessage>,
    /// For the alert channel.
    pub alert: Option<MusicPlayerMessage>,
}

/// What the controller holds: times in nanoseconds.
pub struct TimerView {
    /// The moment at which `remaining` was last brought up to date.
    pub reference: nat,
    /// The time left on the countdown.
    pub remaining: nat,
    /// The phase.
    pub phase: TickState,
    /// The loudness of the music.
    pub volume: Volume,
}

/// The time gone by at `now` since the controller's reference moment; zero
/// where `now` lies before it.
pub open spec fn elapsed(v: TimerView, now: nat) -> nat {
    clamped_sub(now, v.reference)
}

/// Whether the countdown of `v` has run out at `now`.
pub open spec fn timed_out(v: TimerView, now: nat) -> bool {
    v.remaining <= elapsed(v, now)
}

/// No command for either channel.
pub open spec fn no_commands() -> AudioCommands {
    AudioCommands { bgm: None, alert: None }
}

/// A pause for both channels.
pub open spec fn pause_both() -> AudioCommands {
    AudioCommands { bgm: Some(MusicPlayerMessage::Pause), alert: Some(MusicPlayerMessage::Pause) }
}

/// `v` after a start at `now`.
pub open spec fn started(v: TimerView, now: nat) -> TimerView {
    TimerView { reference: now, phase: TickState::Ticking, ..v }
}

/// `v` after a stop at `now`: only a running countdown loses the time gone by.
pub open spec fn stopped(v: TimerView, now: nat) -> TimerView {
    TimerView {
        remaining: if v.phase == TickState::Ticking {
            clamped_sub(v.remaining, elapsed(v, now))
        } else {
            v.remaining
        },
        phase: TickState::Stopped,
        ..v
    }
}

/// `v` after the alert was acknowledged at `now`.
pub open spec fn acknowledged(v: TimerView, now: nat) -> TimerView {
    TimerView { reference: now, phase: TickState::Stopped, ..v }
}

/// `v` after a reset at `now`, which only a stopped countdown takes.
pub open spec fn cleared(v: TimerView, now: nat) -> TimerView {
    if v.phase == TickState::Stopped {
        TimerView { reference: now, remaining: 0, ..v }
    } else {
        v
    }
}

/// `v` with `delta` nanoseconds more on the countdown.
pub open spec fn extended(v: TimerView, delta: nat) -> TimerView {
    TimerView { remaining: v.remaining + delta, ..v }
}

/// `v` after a tick at `now`, which only a running countdown takes.
pub open spec fn advanced(v: TimerView, now: nat) -> TimerView {
    if v.phase == TickState::Ticking {
        TimerView {
            reference: now,
            remaining: clamped_sub(v.remaining, elapsed(v, now)),
            phase: if timed_out(v, now) {
                TickState::Alert
            } else {
                TickState::Ticking
            },
            volume: v.volume,
        }
    } else {
        v
    }
}

/// The commands of a tick at `now`: when a running countdown runs out, the
/// music pauses and the alert plays.
pub open spec fn advance_commands(v: TimerView, now: nat) -> AudioCommands {
    if v.phase == TickState::Ticking && timed_out(v, now) {
        AudioCommands {
            bgm: Some(MusicPlayerMessage::Pause),
            alert: Some(MusicPlayerMessage::Play),
        }
    } else {
        no_commands()
    }
}

/// `v` after `message` was handled at `now`.
pub open spec fn after_message(v: TimerView, message: Message, now: nat) -> TimerView {
    match message {
        Message::Start => started(v, now),
        Message::Stop => stopped(v, now),
        Message::AlertStop => acknowledged(v, now),
        Message::Reset => cleared(v, now),
        Message::Update => advanced(v, now),
        Message::OneMinute => extended(v, 60_000_000_000),
        Message::TenMinute => extended(v, 600_000_000_000),
        Message::BGMVolumeChange(level) => TimerView { volume: level, ..v },
    }
}

/// The commands sent when `message` is handled at `now`.
pub open spec fn commands_for(v: TimerView, message: Message, now: nat) -> AudioCommands {
    match message {
        Message::Start => AudioCommands { bgm: Some(MusicPlayerMessage::Play), alert: None },
        Message::Stop => pause_both(),
        Message::AlertStop => pause_both(),
        Message::Update => advance_commands(v, now),
        Message::BGMVolumeChange(level) => AudioCommands {
            bgm: Some(MusicPlayerMessage::SetVolume(level)),
            alert: None,
        },
        _ => no_commands(),
    }
}

/// The time that `message` adds to the countdown, in nanoseconds.
pub open spec fn added_by(message: Message) -> nat {
    match message {
        Message::OneMinute => 60_000_000_000,
        Message::TenMinute => 600_000_000_000,
        _ => 0,
    }
}

/// The countdown and its phase.
#[derive(Clone, Copy, Debug, PartialEq, Eq)]
pub struct TimerController {
    last_update: Span,
    total_duration: Span,
    tick_state: TickState,
    bgm_volume: Volume,
}

impl View for TimerController {
    type V = TimerView;

    closed spec fn view(&self) -> TimerView {
        TimerView {
            reference: self.last_update@,
            remaining: self.total_duration@,
            phase: self.tick_state,
            volume: self.bgm_volume,
        }
    }
}

impl TimerController {
    /// A stopped countdown with no time on it, made at `now`, the music at
    /// full loudness.
    pub fn new(now: Span) -> (r: TimerController)
        ensures
            r@.reference == now@,
            r@.remaining == 0,
            r@.phase == TickState::Stopped,
            r@.volume@ == 100,
    {
        TimerController {
            last_update: now,
            total_duration: Span::zero(),
            tick_state: TickState::Stopped,
            bgm_volume: Volume::full(),
        }
    }

    /// The time left on the countdown.
    pub fn total_duration(&self) -> (r: Span)
        ensures
            r@ == self@.remaining,
    {
        self.total_duration
    }

    /// The moment at which the time left was last brought up to date.
    pub fn last_update(&self) -> (r: Span)
        ensures
            r@ == self@.reference,
    {
        self.last_update
    }

    /// The phase.
    pub fn tick_state(&self) -> (r: TickState)
        ensures
            r == self@.phase,
    {
        self.tick_state
    }

    /// The loudness of the music.
    pub fn bgm_volume(&self) -> (r: Volume)
        ensures
            r == self@.volume,
    {
        self.bgm_volume
    }

    /// Starts the countdown at `now`: the phase becomes `Ticking`, `now`
    /// becomes the reference moment and the music is told to play.
    pub fn start(&mut self, now: Span) -> (out: AudioCommands)
        ensures
            final(self)@ == started(old(self)@, now@),
            out == (AudioCommands { bgm: Some(MusicPlayerMessage::Play), alert: None }),
    {
        self.tick_state = TickState::Ticking;
        self.last_update = now;
        AudioCommands { bgm: Some(MusicPlayerMessage::Play), alert: None }
    }

    /// Stops the countdown at `now`: a running countdown loses the time gone
    /// by since the reference moment, never falling below zero; the phase
    /// becomes `Stopped` and both channels are told to pause.
    pub fn stop(&mut self, now: Span) -> (out: AudioCommands)
        ensures
            final(self)@ == stopped(old(self)@, now@),
            out == pause_both(),
    {
        match self.tick_state {
            TickState::Ticking => {
                let gone = now.saturating_sub(self.last_update);
                self.total_duration = self.total_duration.saturating_sub(gone);
            },
            _ => {},
        }
        self.tick_state = TickState::Stopped;
        AudioCommands {
            bgm: Some(MusicPlayerMessage::Pause),
            alert: Some(MusicPlayerMessage::Pause),
        }
    }

    /// Silences the alert at `now`: the phase becomes `Stopped`, `now` becomes
    /// the reference moment, the time left stays as it is and both channels
    /// are told to pause.
    pub fn acknowledge_alert(&mut self, now: Span) -> (out: AudioCommands)
        ensures
            final(self)@ == acknowledged(old(self)@, now@),
            out == pause_both(),
    {
        self.tick_state = TickState::Stopped;
        self.last_update = now;
        AudioCommands {
            bgm: Some(MusicPlayerMessage::Pause),
            alert: Some(MusicPlayerMessage::Pause),
        }
    }

    /// Clears the time left of a stopped countdown and makes `now` the
    /// reference moment. In any other phase nothing changes.
    pub fn reset(&mut self, now: Span)
        ensures
            final(self)@ == cleared(old(self)@, now@),
            old(self)@.phase != TickState::Stopped ==> final(self)@ == old(self)@,
            old(self)@.phase == TickState::Stopped ==> final(self)@.remaining == 0,
    {
        match self.tick_state {
            TickState::Stopped => {
                self.last_update = now;
                self.total_duration = Span::zero();
            },
            _ => {},
        }
    }

    /// Whether `delta` more would still fit on the countdown.
    pub fn can_add(&self, delta: Span) -> (r: bool)
        ensures
            r == (self@.remaining + delta@ <= max_nanos()),
    {
        self.total_duration.checked_add(delta).is_some()
    }

    /// Puts `delta` more on the countdown, in any phase.
    pub fn add_duration(&mut self, delta: Span)
        requires
            old(self)@.remaining + delta@ <= max_nanos(),
        ensures
            final(self)@ == extended(old(self)@, delta@),
    {
        match self.total_duration.checked_add(delta) {
            Some(sum) => {
                self.total_duration = sum;
            },
            None => {},
        }
    }

    /// One tick at `now`. A running countdown loses the time gone by since the
    /// reference moment, never falling below zero, and `now` becomes the
    /// reference moment; when nothing is left the phase becomes `Alert`, the
    /// music is told to pause and the alert to play. In any other phase
    /// nothing changes and nothing is sent.
    pub fn advance(&mut self, now: Span) -> (out: AudioCommands)
        ensures
            final(self)@ == advanced(old(self)@, now@),
            out == advance_commands(old(self)@, now@),
            old(self)@.phase == TickState::Ticking ==> (final(self)@.remaining == 0
                <==> final(self)@.phase == TickState::Alert),
    {
        match self.tick_state {
            TickState::Ticking => {
                let gone = now.saturating_sub(self.last_update);
                let left = self.total_duration.saturating_sub(gone);
                self.total_duration = left;
                self.last_update = now;
                if left.is_zero() {
                    self.tick_state = TickState::Alert;
                    AudioCommands {
                        bgm: Some(MusicPlayerMessage::Pause),
                        alert: Some(MusicPlayerMessage::Play),
                    }
                } else {
                    AudioCommands { bgm: None, alert: None }
                }
            },
            _ => AudioCommands { bgm: None, alert: None },
        }
    }

    /// Sets the loudness of the music; the alert channel is sent nothing.
    pub fn set_music_volume(&mut self, level: Volume) -> (out: AudioCommands)
        ensures
            final(self)@ == (TimerView { volume: level, ..old(self)@ }),
            out == (AudioCommands { bgm: Some(MusicPlayerMessage::SetVolume(level)), alert: None }),
    {
        self.bgm_volume = level;
        AudioCommands { bgm: Some(MusicPlayerMessage::SetVolume(level)), alert: None }
    }

    /// Whether `message` can be handled: the time it adds must still fit on
    /// the countdown.
    pub fn accepts(&self, message: Message) -> (r: bool)
        ensures
            r == (self@.remaining + added_by(message) <= max_nanos()),
    {
        match message {
            Message::OneMinute => self.can_add(Span::from_secs(MINUTE)),
            Message::TenMinute => self.can_add(Span::from_secs(10 * MINUTE)),
            _ => self.can_add(Span::zero()),
        }
    }

    /// Handles one message at `now` and returns the commands for the two
    /// channels.
    pub fn update(&mut self, message: Message, now: Span) -> (out: AudioCommands)
        requires
            old(self)@.remaining + added_by(message) <= max_nanos(),
        ensures
            final(self)@ == after_message(old(self)@, message, now@),
            out == commands_for(old(self)@, message, now@),
    {
        match message {
            Message::Start => self.start(now),
            Message::Stop => self.stop(now),
            Message::AlertStop => self.acknowledge_alert(now),
            Message::Reset => {
                self.reset(now);
                AudioCommands { bgm: None, alert: None }
            },
            Message::Update => self.advance(now),
            Message::OneMinute => {
                self.add_duration(Span::from_secs(MINUTE));
                AudioCommands { bgm: None, alert: None }
            },
            Message::TenMinute => {
                self.add_duration(Span::from_secs(10 * MINUTE));
                AudioCommands { bgm: None, alert: None }
            },
            Message::BGMVolumeChange(level) => self.set_music_volume(level),
        }
    }
}

/// A tick on a running countdown, `gone` nanoseconds after the reference
/// moment, leaves the time left less `gone`, or nothing where `gone` is more
/// than was left.
pub proof fn lemma_advance_subtracts_elapsed(v: TimerView, gone: nat)
    requires
        v.phase == TickState::Ticking,
    ensures
        advanced(v, v.reference + gone).remaining == if v.remaining - gone > 0 {
            v.remaining - gone
        } else {
            0
        },
        advanced(v, v.reference + gone).reference == v.reference + gone,
{
}

/// Two ticks, the second no earlier than the first and neither before the
/// reference moment, leave the time and the phase that the second tick alone
/// would leave: a tick that comes late or is merged with the next loses
/// nothing.
pub proof fn lemma_merged_ticks_lose_nothing(v: TimerView, first: nat, second: nat)
    requires
        v.reference <= first <= second,
    ensures
        advanced(advanced(v, first), second).remaining == advanced(v, second).remaining,
        advanced(advanced(v, first), second).phase == advanced(v, second).phase,
{
}

/// Whatever message other than a reset is handled, a countdown that is not
/// running loses no time.
pub proof fn lemma_time_is_lost_only_while_ticking(v: TimerView, message: Message, now: nat)
    requires
        v.phase != TickState::Ticking,
        message != Message::Reset,
    ensures
        after_message(v, message, now).remaining >= v.remaining,
{
}

/// A tick on a running countdown leaves nothing on it exactly when it moves
/// the phase to `Alert`.
pub proof fn lemma_advance_zero_iff_alert(v: TimerView, now: nat)
    requires
        v.phase == TickState::Ticking,
    ensures
        advanced(v, now).remaining == 0 <==> advanced(v, now).phase == TickState::Alert,
{
}

/// A reset on a countdown that is running or alerting changes nothing.
pub proof fn lemma_reset_needs_stopped(v: TimerView, now: nat)
    requires
        v.phase == TickState::Ticking || v.phase == TickState::Alert,
    ensures
        cleared(v, now) == v,
{
}

} // verus!
