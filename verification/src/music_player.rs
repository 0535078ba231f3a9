//! The playback state machine of one sound channel.
//!
//! The channel's worker owns the output device and the decoded, looping
//! source. It hands each command it receives to [`MusicPlayer::run`], carries
//! out the [`PlayerAction`] that comes back, and reports the outcome of a load
//! through [`MusicPlayer::initialize`].

use vstd::prelude::*;
use crate::volume::Volume;

verus! {

/// A command sent to a sound channel.
#[derive(Clone, Debug, PartialEq, Eq)]
pub enum MusicPlayerMessage {
    /// Open the device and load the file at this path, looping and paused.
    Initialize(String),
    /// Resume playback.
    Play,
    /// Pause playback.
    Pause,
    /// Set the loudness of the loaded source.
    SetVolume(Volume),
    /// End the worker and release the device.
    Shutdown,
}

/// The playback phase of a channel.
#[derive(Clone, Copy, Debug, PartialEq, Eq, Structural)]
pub enum MusicPlayerState {
    /// Neither device nor source is held.
    UninitializeState,
    /// Device and source are held; the source is paused.
    StopState,
    /// Device and source are held; the source is playing.
    PlayState,
}

/// What the worker is to do with the device and the source.
#[derive(Clone, Debug, PartialEq, Eq)]
pub enum PlayerAction {
    /// Nothing.
    Nothing,
    /// Release what is held, then open the device and load the file at this
    /// path, looping and paused; report the outcome afterwards.
    Load(String),
    /// Resume the source.
    Resume,
    /// Pause the source.
    Suspend,
    /// Set the loudness of the source.
    ApplyVolume(Volume),
    /// Release what is held and end the worker.
    Terminate,
}

/// What a channel's state machine holds.
pub struct PlayerView {
    pub state: MusicPlayerState,
    pub volume: Volume,
}

/// The state machine of one sound channel.
pub struct MusicPlayer {
    state: MusicPlayerState,
    volume: Volume,
}

/// The state that follows `before` when `msg` is received.
pub open spec fn state_after(before: MusicPlayerState, msg: MusicPlayerMessage) -> MusicPlayerState {
    match msg {
        MusicPlayerMessage::Initialize(_) => MusicPlayerState::UninitializeState,
        MusicPlayerMessage::Play => if before == MusicPlayerState::StopState {
            MusicPlayerState::PlayState
        } else {
            before
        },
        MusicPlayerMessage::Pause => if before == MusicPlayerState::PlayState {
            MusicPlayerState::StopState
        } else {
            before
        },
        MusicPlayerMessage::SetVolume(_) => before,
        MusicPlayerMessage::Shutdown => MusicPlayerState::UninitializeState,
    }
}

/// The loudness that follows `before` when `msg` is received.
pub open spec fn volume_after(before: PlayerView, msg: MusicPlayerMessage) -> Volume {
    match msg {
        MusicPlayerMessage::SetVolume(level) => if before.state
            == MusicPlayerState::UninitializeState {
            before.volume
        } else {
            level
        },
        _ => before.volume,
    }
}

/// What the worker is to do when `msg` is received in `before`.
pub open spec fn action_for(before: MusicPlayerState, msg: MusicPlayerMessage) -> PlayerAction {
    match msg {
        MusicPlayerMessage::Initialize(path) => PlayerAction::Load(path),
        MusicPlayerMessage::Play => if before == MusicPlayerState::StopState {
            PlayerAction::Resume
        } else {
            PlayerAction::Nothing
        },
        MusicPlayerMessage::Pause => if before == MusicPlayerState::PlayState {
            PlayerAction::Suspend
        } else {
            PlayerAction::Nothing
        },
        MusicPlayerMessage::SetVolume(level) => if before == MusicPlayerState::UninitializeState {
            PlayerAction::Nothing
        } else {
            PlayerAction::ApplyVolume(level)
        },
        MusicPlayerMessage::Shutdown => PlayerAction::Terminate,
    }
}

/// The state reached from `before` when the messages of `msgs` are received
/// in order.
pub open spec fn state_after_all(before: MusicPlayerState, msgs: Seq<MusicPlayerMessage>) -> MusicPlayerState
    decreases msgs.len(),
{
    if msgs.len() == 0 {
        before
    } else {
        state_after(state_after_all(before, msgs.drop_last()), msgs.last())
    }
}

impl View for MusicPlayer {
    type V = PlayerView;

    closed spec fn view(&self) -> PlayerView {
        PlayerView { state: self.state, volume: self.volume }
    }
}

impl MusicPlayer {
    /// A channel that holds nothing yet, at full loudness.
    pub fn new() -> (r: MusicPlayer)
        ensures
            r@.state == MusicPlayerState::UninitializeState,
            r@.volume@ == 100,
    {
        MusicPlayer { state: MusicPlayerState::UninitializeState, volume: Volume::full() }
    }

    /// The playback phase.
    pub fn state(&self) -> (r: MusicPlayerState)
        ensures
            r == self@.state,
    {
        self.state
    }

    /// The loudness last applied.
    pub fn volume(&self) -> (r: Volume)
        ensures
            r == self@.volume,
    {
        self.volume
    }

    /// Takes one received command: moves to the state that follows and says
    /// what the worker is to do with the device and the source.
    pub fn run(&mut self, msg: MusicPlayerMessage) -> (action: PlayerAction)
        ensures
            final(self)@.state == state_after(old(self)@.state, msg),
            final(self)@.volume == volume_after(old(self)@, msg),
            action == action_for(old(self)@.state, msg),
    {
        match msg {
            MusicPlayerMessage::Initialize(path) => {
                self.state = MusicPlayerState::UninitializeState;
                PlayerAction::Load(path)
            },
            MusicPlayerMessage::Play => {
                if self.play() {
                    PlayerAction::Resume
                } else {
                    PlayerAction::Nothing
                }
            },
            MusicPlayerMessage::Pause => {
                if self.pause() {
                    PlayerAction::Suspend
                } else {
                    PlayerAction::Nothing
                }
            },
            MusicPlayerMessage::SetVolume(level) => {
                if self.set_volume(level) {
                    PlayerAction::ApplyVolume(level)
                } else {
                    PlayerAction::Nothing
                }
            },
            MusicPlayerMessage::Shutdown => {
                self.state = MusicPlayerState::UninitializeState;
                PlayerAction::Terminate
            },
        }
    }

    /// Records the outcome of a load: with `loaded` the source is held and
    /// paused, without it nothing is held.
    pub fn initialize(&mut self, loaded: bool)
        ensures
            final(self)@.state == if loaded {
                MusicPlayerState::StopState
            } else {
                MusicPlayerState::UninitializeState
            },
            final(self)@.volume == old(self)@.volume,
    {
        if loaded {
            self.state = MusicPlayerState::StopState;
        } else {
            self.state = MusicPlayerState::UninitializeState;
        }
    }

    /// Resumes a paused source. Returns whether the source is to be resumed:
    /// a channel that holds nothing, or is playing already, stays as it is.
    pub fn play(&mut self) -> (resume: bool)
        ensures
            resume == (old(self)@.state == MusicPlayerState::StopState),
            final(self)@.state == state_after(old(self)@.state, MusicPlayerMessage::Play),
            final(self)@.volume == old(self)@.volume,
    {
        match self.state {
            MusicPlayerState::StopState => {
                self.state = MusicPlayerState::PlayState;
                true
            },
            _ => false,
        }
    }

    /// Pauses a playing source. Returns whether the source is to be paused:
    /// a channel that holds nothing, or is paused already, stays as it is.
    pub fn pause(&mut self) -> (suspend: bool)
        ensures
            suspend == (old(self)@.state == MusicPlayerState::PlayState),
            final(self)@.state == state_after(old(self)@.state, MusicPlayerMessage::Pause),
            final(self)@.volume == old(self)@.volume,
    {
        match self.state {
            MusicPlayerState::PlayState => {
                self.state = MusicPlayerState::StopState;
                true
            },
            _ => false,
        }
    }

    /// Sets the loudness of the source that is held, in either phase. Returns
    /// whether there is a source to apply it to: a channel that holds nothing
    /// keeps the loudness it had.
    pub fn set_volume(&mut self, level: Volume) -> (apply: bool)
        ensures
            apply == (old(self)@.state != MusicPlayerState::UninitializeState),
            final(self)@.state == old(self)@.state,
            final(self)@.volume == if apply {
                level
            } else {
                old(self)@.volume
            },
    {
        match self.state {
            MusicPlayerState::UninitializeState => false,
            _ => {
                self.volume = level;
                true
            },
        }
    }
}

/// A channel that holds nothing stays so, and asks nothing of its worker,
/// whatever sequence of play and pause commands it receives.
pub proof fn lemma_uninitialized_ignores_play_pause(msgs: Seq<MusicPlayerMessage>)
    requires
        forall|i: int|
            0 <= i < msgs.len() ==> (#[trigger] msgs[i] == MusicPlayerMessage::Play || msgs[i]
                == MusicPlayerMessage::Pause),
    ensures
        state_after_all(MusicPlayerState::UninitializeState, msgs)
            == MusicPlayerState::UninitializeState,
        forall|i: int|
            0 <= i < msgs.len() ==> #[trigger] action_for(
                state_after_all(MusicPlayerState::UninitializeState, msgs.take(i)),
                msgs[i],
            ) == PlayerAction::Nothing,
    decreases msgs.len(),
{
    if msgs.len() > 0 {
        let front = msgs.drop_last();
        lemma_uninitialized_ignores_play_pause(front);
        assert forall|i: int| 0 <= i < msgs.len() implies #[trigger] action_for(
            state_after_all(MusicPlayerState::UninitializeState, msgs.take(i)),
            msgs[i],
        ) == PlayerAction::Nothing by {
            if i < front.len() {
                assert(msgs.take(i) =~= front.take(i));
                assert(msgs[i] == front[i]);
            } else {
                assert(msgs.take(i) =~= front);
            }
        }
    }
}

/// Pausing twice leaves the channel where pausing once leaves it, and the
/// second pause asks nothing of the worker.
pub proof fn lemma_pause_idempotent(before: MusicPlayerState)
    ensures
        state_after(state_after(before, MusicPlayerMessage::Pause), MusicPlayerMessage::Pause)
            == state_after(before, MusicPlayerMessage::Pause),
        action_for(state_after(before, MusicPlayerMessage::Pause), MusicPlayerMessage::Pause)
            == PlayerAction::Nothing,
{
}

/// Playing twice leaves the channel where playing once leaves it, and the
/// second play asks nothing of the worker.
pub proof fn lemma_play_idempotent(before: MusicPlayerState)
    ensures
        state_after(state_after(before, MusicPlayerMessage::Play), MusicPlayerMessage::Play)
            == state_after(before, MusicPlayerMessage::Play),
        action_for(state_after(before, MusicPlayerMessage::Play), MusicPlayerMessage::Play)
            == PlayerAction::Nothing,
{
}

} // verus!
