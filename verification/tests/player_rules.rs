use asteroidz::player::{BlinkPhase, Player, PlayerTick, ThrusterState, START_HEALTH};

fn tick(forward_held: bool, animation_due: bool, invincibility: Option<BlinkPhase>) -> PlayerTick {
    PlayerTick { forward_held, animation_due, invincibility }
}

#[test]
fn new_player_has_full_health_and_is_visible() {
    let p = Player::new(ThrusterState::Off);
    assert_eq!(p.health, START_HEALTH);
    assert_eq!(p.health, 3);
    assert!(p.visible);
    assert_eq!(p.thruster_state, ThrusterState::Off);
    assert!(p.is_alive());
}

#[test]
fn thruster_lights_then_alternates_while_held() {
    let mut p = Player::new(ThrusterState::Off);
    p.update(tick(true, false, None));
    assert_eq!(p.thruster_state, ThrusterState::Single);
    p.update(tick(true, true, None));
    assert_eq!(p.thruster_state, ThrusterState::Triple);
    p.update(tick(true, false, None));
    assert_eq!(p.thruster_state, ThrusterState::Triple);
    p.update(tick(true, true, None));
    assert_eq!(p.thruster_state, ThrusterState::Single);
}

#[test]
fn thruster_off_lit_and_toggled_in_one_frame() {
    let mut p = Player::new(ThrusterState::Off);
    p.update(tick(true, true, None));
    assert_eq!(p.thruster_state, ThrusterState::Triple);
}

#[test]
fn thruster_goes_off_when_released() {
    let mut p = Player::new(ThrusterState::Triple);
    p.update(tick(false, true, None));
    assert_eq!(p.thruster_state, ThrusterState::Off);
}

#[test]
fn blink_follows_phase_and_ends_visible() {
    let mut p = Player::new(ThrusterState::Off);
    p.update(tick(false, false, Some(BlinkPhase { expired: false, phase: 7 })));
    assert!(!p.visible);
    p.update(tick(false, false, None));
    assert!(!p.visible);
    p.update(tick(false, false, Some(BlinkPhase { expired: false, phase: 4 })));
    assert!(p.visible);
    p.update(tick(false, false, Some(BlinkPhase { expired: false, phase: 3 })));
    assert!(!p.visible);
    p.update(tick(false, false, Some(BlinkPhase { expired: true, phase: -1 })));
    assert!(p.visible);
}

#[test]
fn hit_lands_then_invincibility_blocks_until_it_ends() {
    let mut p = Player::new(ThrusterState::Off);
    assert!(!p.invincible);
    assert!(p.take_damage());
    assert_eq!(p.health, 2);
    assert!(p.invincible);
    assert!(!p.take_damage());
    assert_eq!(p.health, 2);
    p.update(tick(false, false, Some(BlinkPhase { expired: false, phase: 3 })));
    assert!(p.invincible);
    assert!(!p.take_damage());
    p.update(tick(false, false, Some(BlinkPhase { expired: true, phase: 0 })));
    assert!(!p.invincible);
    assert!(p.visible);
    assert!(p.take_damage());
    assert_eq!(p.health, 1);
}

#[test]
fn health_never_goes_below_zero() {
    let mut p = Player::new(ThrusterState::Off);
    p.health = 0;
    assert!(p.take_damage());
    assert_eq!(p.health, 0);
    assert!(!p.is_alive());
}

#[test]
fn many_asteroids_cost_one_health_point_per_frame() {
    let mut p = Player::new(ThrusterState::Off);
    assert!(p.collide_with_asteroids(&vec![false, true, true, true]));
    assert_eq!(p.health, 2);
    assert!(p.invincible);
    assert!(!p.collide_with_asteroids(&vec![true, true]));
    assert_eq!(p.health, 2);
}

#[test]
fn no_touch_no_hit() {
    let mut p = Player::new(ThrusterState::Off);
    assert!(!p.collide_with_asteroids(&vec![false, false]));
    assert!(!p.collide_with_asteroids(&Vec::new()));
    assert_eq!(p.health, 3);
    assert!(!p.invincible);
}

#[test]
fn dead_ship_is_not_hit() {
    let mut p = Player::new(ThrusterState::Off);
    p.health = 0;
    assert!(!p.collide_with_asteroids(&vec![true]));
    assert_eq!(p.health, 0);
    assert!(!p.invincible);
}
