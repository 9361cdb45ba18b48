use asteroidz::audio_manager::{AudioKeys, AudioManager, MasterVolume, ThrusterSfx, LASER_POOL_SIZE};
use asteroidz::player::ThrusterState;
use asteroidz::screen::GameScreen;

fn keys(mute_pressed: bool) -> AudioKeys {
    AudioKeys { mute_pressed, volume_up_held: false, volume_down_held: false }
}

#[test]
fn new_audio_state() {
    let a = AudioManager::new();
    assert!(!a.is_thruster_sfx_playing);
    assert!(!a.muted);
    assert_eq!(a.current_laser, 0);
}

#[test]
fn laser_sounds_round_robin() {
    let mut a = AudioManager::new();
    let slots: Vec<usize> = (0..7).map(|_| a.play_laser()).collect();
    assert_eq!(slots, vec![0, 1, 2, 3, 4, 0, 1]);
    assert_eq!(LASER_POOL_SIZE, 5);
}

#[test]
fn mute_toggles() {
    let mut a = AudioManager::new();
    let act = a.update(keys(true), ThrusterState::Off, GameScreen::Gameplay);
    assert_eq!(act.mute, Some(MasterVolume::Silent));
    assert!(a.muted);
    assert!(!act.push_raised && !act.push_lowered);
    let act = a.update(keys(false), ThrusterState::Off, GameScreen::Gameplay);
    assert_eq!(act.mute, None);
    assert!(!act.push_raised && !act.push_lowered);
    let act = a.update(keys(true), ThrusterState::Off, GameScreen::Gameplay);
    assert_eq!(act.mute, Some(MasterVolume::Chosen));
    assert!(!a.muted);
    assert!(!act.push_raised);
}

#[test]
fn engine_sound_follows_thruster_and_pause() {
    let mut a = AudioManager::new();
    let act = a.update(keys(false), ThrusterState::Single, GameScreen::Gameplay);
    assert_eq!(act.thruster, ThrusterSfx::Start);
    assert!(a.is_thruster_sfx_playing);
    let act = a.update(keys(false), ThrusterState::Triple, GameScreen::Gameplay);
    assert_eq!(act.thruster, ThrusterSfx::Continue);
    let act = a.update(keys(false), ThrusterState::Triple, GameScreen::Paused);
    assert_eq!(act.thruster, ThrusterSfx::Stop);
    assert!(!a.is_thruster_sfx_playing);
    let act = a.update(keys(false), ThrusterState::Triple, GameScreen::Paused);
    assert_eq!(act.thruster, ThrusterSfx::Idle);
    let act = a.update(keys(false), ThrusterState::Single, GameScreen::Gameplay);
    assert_eq!(act.thruster, ThrusterSfx::Start);
    let act = a.update(keys(false), ThrusterState::Off, GameScreen::Gameplay);
    assert_eq!(act.thruster, ThrusterSfx::Stop);
    let act = a.update(keys(false), ThrusterState::Off, GameScreen::MainMenu);
    assert_eq!(act.thruster, ThrusterSfx::Idle);
    assert!(!a.is_thruster_sfx_playing);
}

#[test]
fn sound_update_keeps_laser_slot() {
    let mut a = AudioManager::new();
    a.play_laser();
    a.play_laser();
    a.update(keys(true), ThrusterState::Single, GameScreen::Gameplay);
    assert_eq!(a.current_laser, 2);
}

#[test]
fn volume_keys_reach_device_only_unmuted() {
    let mut a = AudioManager::new();
    let both = AudioKeys { mute_pressed: false, volume_up_held: true, volume_down_held: true };
    let act = a.update(both, ThrusterState::Off, GameScreen::MainMenu);
    assert!(act.push_raised && act.push_lowered);
    assert_eq!(act.mute, None);
    let mute_and_raise = AudioKeys { mute_pressed: true, volume_up_held: true, volume_down_held: false };
    let act = a.update(mute_and_raise, ThrusterState::Off, GameScreen::MainMenu);
    assert_eq!(act.mute, Some(MasterVolume::Silent));
    assert!(!act.push_raised && !act.push_lowered);
    let unmute_and_lower = AudioKeys { mute_pressed: true, volume_up_held: false, volume_down_held: true };
    let act = a.update(unmute_and_lower, ThrusterState::Off, GameScreen::MainMenu);
    assert_eq!(act.mute, Some(MasterVolume::Chosen));
    assert!(!act.push_raised && act.push_lowered);
}
