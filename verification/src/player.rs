use vstd::prelude::*;

verus! {

/// Health a ship starts with.
pub const START_HEALTH: u8 = 3;

/// Which sprite the ship's engine shows.
#[derive(PartialEq, Eq, Structural, Clone, Copy, Debug)]
pub enum ThrusterState {
    Off,
    Single,
    Triple,
}

/// The discrete part of the player's ship: its hull, its invincibility after
/// a hit, and what it shows. Position, velocity, heading and the timers are
/// floating point and are kept by the caller; the caller's invincibility
/// timer runs while `invincible` holds.
#[derive(PartialEq, Eq, Structural, Clone, Copy, Debug)]
pub struct Player {
    pub thruster_state: ThrusterState,
    pub health: u8,
    pub visible: bool,
    pub invincible: bool,
}

/// How far the invincibility blink has gone, as the caller measured it after
/// counting the timer down this frame.
#[derive(Clone, Copy, Debug)]
pub struct BlinkPhase {
    /// The invincibility timer is at or below zero now.
    pub expired: bool,
    /// The remaining invincibility time times five, truncated to an integer.
    pub phase: i32,
}

/// What the caller observed for the ship in one frame.
#[derive(Clone, Copy, Debug)]
pub struct PlayerTick {
    /// The forward key is held down.
    pub forward_held: bool,
    /// The thruster animation timer reached its period this frame.
    pub animation_due: bool,
    /// `Some` when the ship was invincible at the start of the frame.
    pub invincibility: Option<BlinkPhase>,
}

/// Engine sprite after one frame: off unless the forward key is held; when
/// held, an idle engine lights with one flame, and each animation period
/// flips between one and three flames.
pub open spec fn next_thruster(state: ThrusterState, forward_held: bool, animation_due: bool) -> ThrusterState {
    if !forward_held {
        ThrusterState::Off
    } else {
        let lit = if state == ThrusterState::Off { ThrusterState::Single } else { state };
        if !animation_due {
            lit
        } else if lit == ThrusterState::Single {
            ThrusterState::Triple
        } else {
            ThrusterState::Single
        }
    }
}

/// Whether the ship is drawn while its invincibility blinks: always once the
/// timer has run out, otherwise on even phases.
pub open spec fn blink_visible(b: BlinkPhase) -> bool {
    b.expired || (b.phase as int) % 2 == 0
}

/// Health after one hit: one less, never below zero.
pub open spec fn damaged(health: u8) -> u8 {
    if health == 0 { 0 } else { (health - 1) as u8 }
}

/// The ship after a hit: a ship that is not invincible loses one health
/// point (never going below zero) and becomes invincible; an invincible
/// ship is unchanged.
pub open spec fn after_hit(p: Player) -> Player {
    if p.invincible {
        p
    } else {
        Player { health: damaged(p.health), invincible: true, ..p }
    }
}

/// The ship after the asteroids of one frame have been tested against it:
/// each asteroid touching a living ship hits it.
pub open spec fn after_asteroids(p: Player, touching: Seq<bool>) -> Player
    decreases touching.len(),
{
    if touching.len() == 0 {
        p
    } else {
        let q = after_asteroids(p, touching.drop_last());
        if q.health > 0 && touching.last() { after_hit(q) } else { q }
    }
}

impl Player {
    /// A fresh ship with full health, shown, not invincible, with the given
    /// engine state.
    pub fn new(thruster_state: ThrusterState) -> (p: Player)
        ensures
            p.thruster_state == thruster_state,
            p.health == START_HEALTH,
            p.visible,
            !p.invincible,
    {
        Player { thruster_state, health: START_HEALTH, visible: true, invincible: false }
    }

    /// Applies one frame of input to the engine sprite and the blink. While
    /// the ship is invincible the caller counts its timer down and reports
    /// the blink phase; visibility follows the blink, and the invincibility
    /// ends when the timer has run out.
    pub fn update(&mut self, tick: PlayerTick)
        ensures
            final(self).thruster_state == next_thruster(
                old(self).thruster_state,
                tick.forward_held,
                tick.animation_due,
            ),
            final(self).visible == match tick.invincibility {
                Some(b) => blink_visible(b),
                None => old(self).visible,
            },
            final(self).invincible == match tick.invincibility {
                Some(b) => !b.expired,
                None => old(self).invincible,
            },
            final(self).health == old(self).health,
    {
        if tick.forward_held {
            if self.thruster_state == ThrusterState::Off {
                self.thruster_state = ThrusterState::Single;
            }
            if tick.animation_due {
                self.thruster_state = match self.thruster_state {
                    ThrusterState::Single => ThrusterState::Triple,
                    _ => ThrusterState::Single,
                };
            }
        } else {
            self.thruster_state = ThrusterState::Off;
        }
        match tick.invincibility {
            Some(b) => {
                self.visible = b.expired || b.phase % 2 == 0;
                self.invincible = !b.expired;
            },
            None => {},
        }
    }

    /// A hit lands only when the ship is not invincible: it then costs one
    /// health point, never going below zero, and makes the ship invincible.
    /// Returns whether the hit landed, in which case the caller starts the
    /// invincibility timer.
    pub fn take_damage(&mut self) -> (landed: bool)
        ensures
            landed == !old(self).invincible,
            *final(self) == after_hit(*old(self)),
    {
        if !self.invincible {
            self.health = self.health.saturating_sub(1);
            self.invincible = true;
            true
        } else {
            false
        }
    }

    pub fn is_alive(&self) -> (alive: bool)
        ensures
            alive == (self.health > 0),
    {
        self.health > 0
    }

    /// Tests the asteroids of one frame against the ship: `touching@[i]`
    /// says whether asteroid `i` touches it. An asteroid touching a living
    /// ship hits it. Returns whether a hit landed, in which case the caller
    /// plays the impact sound once and starts the invincibility timer.
    pub fn collide_with_asteroids(&mut self, touching: &Vec<bool>) -> (landed: bool)
        ensures
            *final(self) == after_asteroids(*old(self), touching@),
            landed == (!old(self).invincible && final(self).invincible),
    {
        let ghost start = *self;
        let mut landed = false;
        let mut i: usize = 0;
        while i < touching.len()
            invariant
                i <= touching.len(),
                *self == after_asteroids(start, touching@.take(i as int)),
                start == *old(self),
                landed == (!start.invincible && self.invincible),
                start.invincible ==> self.invincible,
            decreases touching.len() - i,
        {
            proof {
                assert(touching@.take(i + 1).drop_last() =~= touching@.take(i as int));
            }
            if self.is_alive() && touching[i] {
                if self.take_damage() {
                    landed = true;
                }
            }
            i = i + 1;
        }
        proof {
            assert(touching@.take(touching.len() as int) =~= touching@);
        }
        landed
    }
}

/// Damage never heals: a hit lowers health by one at most, and a ship with
/// no health left stays at zero.
pub proof fn lemma_damage_never_heals(health: u8)
    ensures
        damaged(health) <= health,
        health - damaged(health) <= 1,
        health == 0 ==> damaged(health) == 0,
{
}

/// The engine shows a flame exactly while the forward key is held.
pub proof fn lemma_thruster_lit_iff_forward(state: ThrusterState, forward_held: bool, animation_due: bool)
    ensures
        (next_thruster(state, forward_held, animation_due) == ThrusterState::Off) <==> !forward_held,
{
}

/// When the invincibility runs out the ship is shown, whatever the blink
/// phase.
pub proof fn lemma_visible_when_invincibility_ends(b: BlinkPhase)
    requires
        b.expired,
    ensures
        blink_visible(b),
{
}

/// A second hit right after a first changes nothing: the first leaves the
/// ship invincible.
pub proof fn lemma_second_hit_misses(p: Player)
    ensures
        after_hit(after_hit(p)) == after_hit(p),
        after_hit(p).invincible,
{
}

/// However many asteroids touch the ship in one frame, it loses at most
/// one health point, and none when it starts the frame invincible.
pub proof fn lemma_one_hit_per_frame(p: Player, touching: Seq<bool>)
    ensures
        after_asteroids(p, touching).health == p.health
            || (!p.invincible && after_asteroids(p, touching).health == damaged(p.health)),
        p.invincible ==> after_asteroids(p, touching) == p,
        after_asteroids(p, touching).health != p.health ==> after_asteroids(p, touching).invincible,
    decreases touching.len(),
{
    if touching.len() > 0 {
        lemma_one_hit_per_frame(p, touching.drop_last());
    }
}

/// Without a due animation period a lit engine keeps its sprite; a held
/// forward key lights an idle engine with one flame; a due period flips one
/// flame to three and three to one (an idle engine lit in that frame shows
/// three).
pub proof fn lemma_thruster_animation(state: ThrusterState, animation_due: bool)
    ensures
        !animation_due && state != ThrusterState::Off ==> next_thruster(state, true, animation_due) == state,
        !animation_due && state == ThrusterState::Off ==> next_thruster(state, true, animation_due)
            == ThrusterState::Single,
        animation_due && state == ThrusterState::Triple ==> next_thruster(state, true, animation_due)
            == ThrusterState::Single,
        animation_due && state != ThrusterState::Triple ==> next_thruster(state, true, animation_due)
            == ThrusterState::Triple,
{
}

/// A hit on a ship that is not invincible costs exactly one health point
/// (none at zero) and makes it invincible; nothing else changes.
pub proof fn lemma_hit_costs_one_point(p: Player)
    ensures
        !p.invincible ==> after_hit(p).invincible && after_hit(p).health as int == if p.health == 0 {
            0
        } else {
            p.health - 1
        },
        after_hit(p).thruster_state == p.thruster_state,
        after_hit(p).visible == p.visible,
        p.invincible ==> after_hit(p) == p,
{
}

/// A living ship that is not invincible is hit once as soon as any asteroid
/// touches it in the frame; with no asteroid touching it, it is unchanged.
pub proof fn lemma_touch_hits_living_ship(p: Player, touching: Seq<bool>)
    ensures
        p.health > 0 && !p.invincible && touching.contains(true) ==> after_asteroids(p, touching) == after_hit(p),
        !touching.contains(true) ==> after_asteroids(p, touching) == p,
    decreases touching.len(),
{
    if touching.len() > 0 {
        let rest = touching.drop_last();
        lemma_touch_hits_living_ship(p, rest);
        lemma_one_hit_per_frame(p, rest);
        if !rest.contains(true) {
            if touching.contains(true) {
                let j = choose|j: int| 0 <= j < touching.len() && touching[j] == true;
                if j < rest.len() {
                    assert(rest[j]);
                }
            }
        } else {
            let j = choose|j: int| 0 <= j < rest.len() && rest[j] == true;
            assert(touching[j]);
        }
        if !touching.contains(true) {
            assert(!touching.last()) by {
                if touching.last() {
                    assert(touching[touching.len() - 1]);
                }
            }
            assert forall|j: int| 0 <= j < rest.len() implies rest[j] != true by {
                assert(touching[j] == rest[j]);
            }
        }
    }
}

/// While invincible the ship blinks: its visibility flips with each step of
/// the phase, and it is shown at phase zero.
pub proof fn lemma_blink_alternates(phase: i32)
    requires
        phase < i32::MAX,
    ensures
        blink_visible(BlinkPhase { expired: false, phase })
            != blink_visible(BlinkPhase { expired: false, phase: (phase + 1) as i32 }),
        blink_visible(BlinkPhase { expired: false, phase: 0 }),
{
}

} // verus!
