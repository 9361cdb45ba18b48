use vstd::prelude::*;
use crate::player::ThrusterState;
use crate::screen::GameScreen;

verus! {

/// Number of laser sounds kept loaded so that shots can overlap.
pub const LASER_POOL_SIZE: usize = 5;

/// The decisions of the sound system: whether the engine loop plays, which
/// pooled laser sound is next, whether sound is muted. The audio device,
/// the loaded sounds and the volume (floating point) are kept by the caller.
#[derive(Clone, Copy, Debug)]
pub struct AudioManager {
    pub is_thruster_sfx_playing: bool,
    pub current_laser: usize,
    pub muted: bool,
}

/// What the master volume is to be set to.
#[derive(PartialEq, Eq, Structural, Clone, Copy, Debug)]
pub enum MasterVolume {
    /// Zero.
    Silent,
    /// The volume the player chose.
    Chosen,
}

/// What to do with the looping engine sound this frame.
#[derive(PartialEq, Eq, Structural, Clone, Copy, Debug)]
pub enum ThrusterSfx {
    /// Leave it stopped.
    Idle,
    /// Keep feeding the playing stream.
    Continue,
    /// Feed the stream and start playing it.
    Start,
    /// Stop it.
    Stop,
}

/// The volume keys as the caller read them this frame.
#[derive(Clone, Copy, Debug)]
pub struct AudioKeys {
    /// The mute key went down this frame.
    pub mute_pressed: bool,
    /// The volume-up key is held.
    pub volume_up_held: bool,
    /// The volume-down key is held.
    pub volume_down_held: bool,
}

/// What the caller does to the audio device this frame, in this order:
/// apply `mute`; if the volume-up key is held, raise the chosen volume by one
/// step and, when `push_raised`, set the master volume to it; likewise for
/// the volume-down key and `push_lowered`; then act on `thruster`.
#[derive(Clone, Copy, Debug)]
pub struct AudioActions {
    /// When the mute key was pressed: what to set the master volume to.
    pub mute: Option<MasterVolume>,
    pub push_raised: bool,
    pub push_lowered: bool,
    pub thruster: ThrusterSfx,
}

/// The last value the frame's actions write to the master volume, if any.
pub open spec fn last_master_write(act: AudioActions) -> Option<MasterVolume> {
    if act.push_lowered {
        Some(MasterVolume::Chosen)
    } else if act.push_raised {
        Some(MasterVolume::Chosen)
    } else {
        act.mute
    }
}

/// The engine loop plays while the ship thrusts and the game is not paused.
pub open spec fn thruster_should_play(thruster_state: ThrusterState, active_screen: GameScreen) -> bool {
    active_screen != GameScreen::Paused && thruster_state != ThrusterState::Off
}

pub open spec fn thruster_command(playing: bool, thruster_state: ThrusterState, active_screen: GameScreen) -> ThrusterSfx {
    if thruster_should_play(thruster_state, active_screen) {
        if playing { ThrusterSfx::Continue } else { ThrusterSfx::Start }
    } else {
        if playing { ThrusterSfx::Stop } else { ThrusterSfx::Idle }
    }
}

/// The pooled laser sound used after `slot`.
pub open spec fn next_laser(slot: int) -> int {
    (slot + 1) % (LASER_POOL_SIZE as int)
}

/// The actions of one frame (see `AudioManager::update`).
pub open spec fn audio_actions(
    before: AudioManager,
    keys: AudioKeys,
    thruster_state: ThrusterState,
    active_screen: GameScreen,
) -> AudioActions {
    let muted = before.muted != keys.mute_pressed;
    AudioActions {
        mute: if keys.mute_pressed {
            Some(if before.muted { MasterVolume::Chosen } else { MasterVolume::Silent })
        } else {
            None
        },
        push_raised: keys.volume_up_held && !muted,
        push_lowered: keys.volume_down_held && !muted,
        thruster: thruster_command(before.is_thruster_sfx_playing, thruster_state, active_screen),
    }
}

impl AudioManager {
    pub open spec fn wf(&self) -> bool {
        self.current_laser < LASER_POOL_SIZE
    }

    /// Nothing playing but the music, the first laser sound next, not muted.
    pub fn new() -> (a: AudioManager)
        ensures
            !a.is_thruster_sfx_playing,
            a.current_laser == 0,
            !a.muted,
            a.wf(),
    {
        AudioManager { is_thruster_sfx_playing: false, current_laser: 0, muted: false }
    }

    /// One frame of sound decisions. The mute key flips muting: muting sets
    /// the master volume to zero, unmuting back to the chosen volume. A held
    /// volume key changes the chosen volume, which reaches the device only
    /// while not muted. The engine loop is started, fed or stopped so that it
    /// plays exactly while the ship thrusts outside the pause screen.
    pub fn update(&mut self, keys: AudioKeys, thruster_state: ThrusterState, active_screen: GameScreen) -> (act: AudioActions)
        ensures
            final(self).muted == (old(self).muted != keys.mute_pressed),
            act == audio_actions(*old(self), keys, thruster_state, active_screen),
            final(self).is_thruster_sfx_playing == thruster_should_play(thruster_state, active_screen),
            final(self).current_laser == old(self).current_laser,
    {
        let mut mute = None;
        if keys.mute_pressed {
            mute = Some(if !self.muted { MasterVolume::Silent } else { MasterVolume::Chosen });
            self.muted = !self.muted;
        }
        let push_raised = keys.volume_up_held && !self.muted;
        let push_lowered = keys.volume_down_held && !self.muted;
        let mut thruster = ThrusterSfx::Idle;
        if active_screen == GameScreen::Paused {
            if self.is_thruster_sfx_playing {
                thruster = ThrusterSfx::Stop;
                self.is_thruster_sfx_playing = false;
            }
        } else {
            if thruster_state != ThrusterState::Off {
                if !self.is_thruster_sfx_playing {
                    thruster = ThrusterSfx::Start;
                    self.is_thruster_sfx_playing = true;
                } else {
                    thruster = ThrusterSfx::Continue;
                }
            } else {
                if self.is_thruster_sfx_playing {
                    thruster = ThrusterSfx::Stop;
                    self.is_thruster_sfx_playing = false;
                }
            }
        }
        AudioActions { mute, push_raised, push_lowered, thruster }
    }

    /// Picks the pooled laser sound to play now and moves on to the next
    /// one, round robin.
    pub fn play_laser(&mut self) -> (slot: usize)
        requires
            old(self).wf(),
        ensures
            slot == old(self).current_laser,
            final(self).current_laser == next_laser(old(self).current_laser as int),
            final(self).wf(),
            final(self).is_thruster_sfx_playing == old(self).is_thruster_sfx_playing,
            final(self).muted == old(self).muted,
    {
        let slot = self.current_laser;
        self.current_laser = (self.current_laser + 1) % LASER_POOL_SIZE;
        slot
    }
}

/// The laser sounds are used round robin: five shots in a row use five
/// different sounds, and the sixth reuses the first.
pub proof fn lemma_laser_pool_round_robin(slot: int)
    requires
        0 <= slot < LASER_POOL_SIZE,
    ensures
        next_laser(next_laser(next_laser(next_laser(next_laser(slot))))) == slot,
        slot != next_laser(slot),
        slot != next_laser(next_laser(slot)),
        slot != next_laser(next_laser(next_laser(slot))),
        slot != next_laser(next_laser(next_laser(next_laser(slot)))),
{
}

/// The master volume a frame leaves behind matches the muting: when the
/// frame writes the master volume at all, its last write is zero exactly when
/// sound is now muted, and the chosen volume otherwise; while muted the
/// volume keys write nothing, so a volume chosen then takes effect on unmute.
pub proof fn lemma_last_master_write_matches_muting(
    before: AudioManager,
    keys: AudioKeys,
    thruster_state: ThrusterState,
    active_screen: GameScreen,
)
    ensures
        ({
            let act = audio_actions(before, keys, thruster_state, active_screen);
            let muted = before.muted != keys.mute_pressed;
            &&& last_master_write(act) matches Some(m) ==> (m == MasterVolume::Silent <==> muted)
            &&& muted ==> !act.push_raised && !act.push_lowered
            &&& keys.mute_pressed ==> last_master_write(act) is Some
        }),
{
}

/// On every screen a held volume key reaches the device exactly when sound
/// is not muted after the frame's mute key; the mute key sets the master
/// volume to zero when it mutes and back to the chosen volume when it
/// unmutes; without it the master volume is not touched by muting.
pub proof fn lemma_volume_keys_on_every_screen(
    before: AudioManager,
    keys: AudioKeys,
    thruster_state: ThrusterState,
    active_screen: GameScreen,
)
    ensures
        ({
            let act = audio_actions(before, keys, thruster_state, active_screen);
            &&& act.push_raised == (keys.volume_up_held && before.muted == keys.mute_pressed)
            &&& act.push_lowered == (keys.volume_down_held && before.muted == keys.mute_pressed)
            &&& keys.mute_pressed && !before.muted ==> act.mute == Some(MasterVolume::Silent)
            &&& keys.mute_pressed && before.muted ==> act.mute == Some(MasterVolume::Chosen)
            &&& !keys.mute_pressed ==> act.mute is None
        }),
{
}

/// The engine loop command moves the loop to playing exactly while the ship
/// thrusts outside the pause screen: it starts a stopped loop that should
/// play, stops a playing loop that should not, and otherwise leaves it.
pub proof fn lemma_engine_loop_command(playing: bool, thruster_state: ThrusterState, active_screen: GameScreen)
    ensures
        ({
            let c = thruster_command(playing, thruster_state, active_screen);
            let should = active_screen != GameScreen::Paused && thruster_state != ThrusterState::Off;
            &&& (c == ThrusterSfx::Start) <==> (should && !playing)
            &&& (c == ThrusterSfx::Stop) <==> (!should && playing)
            &&& (c == ThrusterSfx::Continue) <==> (should && playing)
            &&& (c == ThrusterSfx::Idle) <==> (!should && !playing)
        }),
{
}

/// The laser sounds are taken in order: each slot is followed by the next
/// one, and the last by the first.
pub proof fn lemma_laser_pool_in_order(slot: int)
    requires
        0 <= slot < LASER_POOL_SIZE,
    ensures
        slot + 1 < LASER_POOL_SIZE ==> next_laser(slot) == slot + 1,
        slot + 1 == LASER_POOL_SIZE ==> next_laser(slot) == 0,
{
}

} // verus!
