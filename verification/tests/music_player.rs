use work_timer::music_player::MusicPlayer;
use work_timer::music_player::MusicPlayerMessage;
use work_timer::music_player::MusicPlayerState;
use work_timer::music_player::PlayerAction;
use work_timer::volume::Volume;

fn loaded_player() -> MusicPlayer {
    let mut player = MusicPlayer::new();
    player.run(MusicPlayerMessage::Initialize(String::from("media/bgm.mp3")));
    player.initialize(true);
    player
}

#[test]
fn new_player_holds_nothing() {
    let player = MusicPlayer::new();
    assert_eq!(player.state(), MusicPlayerState::UninitializeState);
    assert_eq!(player.volume().percent(), 100);
}

#[test]
fn play_and_pause_before_initialize_are_ignored() {
    let mut player = MusicPlayer::new();
    let msgs = [
        MusicPlayerMessage::Play,
        MusicPlayerMessage::Pause,
        MusicPlayerMessage::Pause,
        MusicPlayerMessage::Play,
        MusicPlayerMessage::Play,
    ];
    for msg in msgs {
        assert_eq!(player.run(msg), PlayerAction::Nothing);
        assert_eq!(player.state(), MusicPlayerState::UninitializeState);
    }
    assert!(!player.play());
    assert!(!player.pause());
    assert_eq!(player.state(), MusicPlayerState::UninitializeState);
}

#[test]
fn initialize_asks_for_a_load_and_success_leaves_it_paused() {
    let mut player = MusicPlayer::new();
    let action = player.run(MusicPlayerMessage::Initialize(String::from("media/alert.mp3")));
    assert_eq!(action, PlayerAction::Load(String::from("media/alert.mp3")));
    assert_eq!(player.state(), MusicPlayerState::UninitializeState);
    player.initialize(true);
    assert_eq!(player.state(), MusicPlayerState::StopState);
}

#[test]
fn failed_load_leaves_the_player_uninitialized() {
    let mut player = MusicPlayer::new();
    player.run(MusicPlayerMessage::Initialize(String::from("missing.mp3")));
    player.initialize(false);
    assert_eq!(player.state(), MusicPlayerState::UninitializeState);
    assert_eq!(player.run(MusicPlayerMessage::Play), PlayerAction::Nothing);
    assert_eq!(player.state(), MusicPlayerState::UninitializeState);
}

#[test]
fn initializing_again_lets_go_of_what_was_held() {
    let mut player = loaded_player();
    player.run(MusicPlayerMessage::Play);
    assert_eq!(player.state(), MusicPlayerState::PlayState);
    let action = player.run(MusicPlayerMessage::Initialize(String::from("other.mp3")));
    assert_eq!(action, PlayerAction::Load(String::from("other.mp3")));
    assert_eq!(player.state(), MusicPlayerState::UninitializeState);
    player.initialize(false);
    assert_eq!(player.state(), MusicPlayerState::UninitializeState);
}

#[test]
fn play_resumes_and_pause_suspends() {
    let mut player = loaded_player();
    assert_eq!(player.run(MusicPlayerMessage::Play), PlayerAction::Resume);
    assert_eq!(player.state(), MusicPlayerState::PlayState);
    assert_eq!(player.run(MusicPlayerMessage::Pause), PlayerAction::Suspend);
    assert_eq!(player.state(), MusicPlayerState::StopState);
}

#[test]
fn pause_twice_is_pause_once() {
    let mut once = loaded_player();
    once.play();
    assert!(once.pause());
    let mut twice = loaded_player();
    twice.play();
    assert!(twice.pause());
    assert!(!twice.pause());
    assert_eq!(twice.state(), once.state());
    assert_eq!(twice.state(), MusicPlayerState::StopState);
    assert_eq!(twice.run(MusicPlayerMessage::Pause), PlayerAction::Nothing);
}

#[test]
fn play_twice_is_play_once() {
    let mut once = loaded_player();
    assert!(once.play());
    let mut twice = loaded_player();
    assert!(twice.play());
    assert!(!twice.play());
    assert_eq!(twice.state(), once.state());
    assert_eq!(twice.state(), MusicPlayerState::PlayState);
    assert_eq!(twice.run(MusicPlayerMessage::Play), PlayerAction::Nothing);
}

#[test]
fn volume_applies_in_either_phase_but_not_before_a_load() {
    let mut player = MusicPlayer::new();
    assert_eq!(player.run(MusicPlayerMessage::SetVolume(Volume::new(30))), PlayerAction::Nothing);
    assert_eq!(player.volume().percent(), 100);
    assert!(!player.set_volume(Volume::new(10)));
    assert_eq!(player.volume().percent(), 100);

    let mut player = loaded_player();
    assert_eq!(
        player.run(MusicPlayerMessage::SetVolume(Volume::new(30))),
        PlayerAction::ApplyVolume(Volume::new(30))
    );
    assert_eq!(player.volume().percent(), 30);
    assert_eq!(player.state(), MusicPlayerState::StopState);
    player.play();
    assert!(player.set_volume(Volume::new(80)));
    assert_eq!(player.volume().percent(), 80);
    assert_eq!(player.state(), MusicPlayerState::PlayState);
}

#[test]
fn shutdown_ends_the_worker_from_every_state() {
    let mut player = MusicPlayer::new();
    assert_eq!(player.run(MusicPlayerMessage::Shutdown), PlayerAction::Terminate);
    assert_eq!(player.state(), MusicPlayerState::UninitializeState);
    let mut player = loaded_player();
    assert_eq!(player.run(MusicPlayerMessage::Shutdown), PlayerAction::Terminate);
    assert_eq!(player.state(), MusicPlayerState::UninitializeState);
    let mut player = loaded_player();
    player.play();
    assert_eq!(player.run(MusicPlayerMessage::Shutdown), PlayerAction::Terminate);
    assert_eq!(player.state(), MusicPlayerState::UninitializeState);
}

#[test]
fn volume_is_capped_at_full() {
    assert_eq!(Volume::new(0).percent(), 0);
    assert_eq!(Volume::new(55).percent(), 55);
    assert_eq!(Volume::new(100).percent(), 100);
    assert_eq!(Volume::new(101).percent(), 100);
    assert_eq!(Volume::new(255).percent(), 100);
    assert_eq!(Volume::full(), Volume::new(100));
}
