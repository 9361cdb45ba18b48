use asteroidz::controls::{
    Controls, RebindInput, Rebinding, KEY_F2, KEY_F3, KEY_LEFT, KEY_M, KEY_P, KEY_RIGHT, KEY_S, KEY_UP,
};
use asteroidz::screen::GameScreen;

const KEY_W: u32 = 87;
const KEY_A: u32 = 65;

fn defaults() -> Controls {
    Controls::new(None, None, None, None, None, None, None, None, 640, 480)
}

fn nothing() -> RebindInput {
    RebindInput {
        key_pressed: None,
        clicked: false,
        over_forward: false,
        over_left: false,
        over_right: false,
        over_shoot: false,
    }
}

#[test]
fn default_keys() {
    let c = defaults();
    assert_eq!(c.left, KEY_LEFT);
    assert_eq!(c.right, KEY_RIGHT);
    assert_eq!(c.forward, KEY_UP);
    assert_eq!(c.shoot, KEY_S);
    assert_eq!(c.mute, KEY_M);
    assert_eq!(c.volume_up, KEY_F3);
    assert_eq!(c.volume_down, KEY_F2);
    assert_eq!(c.pause, KEY_P);
    assert_eq!((c.left, c.right, c.forward, c.shoot), (263, 262, 265, 83));
    assert_eq!(c.currently_rebinding, Rebinding::Inactive);
    assert!(!c.display_rebind_err);
    assert_eq!(c.from_menu, GameScreen::MainMenu);
    assert_eq!((c.window_width, c.window_height), (640, 480));
}

#[test]
fn chosen_keys_override_defaults() {
    let c = Controls::new(Some(KEY_A), None, Some(KEY_W), None, None, None, None, Some(32), 800, 600);
    assert_eq!(c.left, KEY_A);
    assert_eq!(c.right, KEY_RIGHT);
    assert_eq!(c.forward, KEY_W);
    assert_eq!(c.pause, 32);
}

#[test]
fn click_on_button_starts_rebinding() {
    let mut c = defaults();
    let mut i = nothing();
    i.over_left = true;
    Controls::poll_events(&mut c, &i);
    assert_eq!(c.currently_rebinding, Rebinding::Inactive);
    i.clicked = true;
    Controls::poll_events(&mut c, &i);
    assert_eq!(c.currently_rebinding, Rebinding::Left);
}

#[test]
fn first_hovered_button_wins() {
    let mut c = defaults();
    let mut i = nothing();
    i.over_right = true;
    i.over_shoot = true;
    i.clicked = true;
    Controls::poll_events(&mut c, &i);
    assert_eq!(c.currently_rebinding, Rebinding::Right);
}

#[test]
fn hover_on_earlier_button_without_click_blocks_later_ones() {
    let mut c = defaults();
    let mut i = nothing();
    i.over_forward = true;
    i.over_shoot = true;
    Controls::poll_events(&mut c, &i);
    assert_eq!(c.currently_rebinding, Rebinding::Inactive);
}

#[test]
fn free_key_is_bound() {
    let mut c = defaults();
    let mut i = nothing();
    i.over_forward = true;
    i.clicked = true;
    Controls::poll_events(&mut c, &i);
    assert_eq!(c.currently_rebinding, Rebinding::Forward);
    let mut k = nothing();
    k.key_pressed = Some(KEY_W);
    Controls::poll_events(&mut c, &k);
    assert_eq!(c.forward, KEY_W);
    assert_eq!(c.currently_rebinding, Rebinding::Inactive);
    assert!(!c.display_rebind_err);
}

#[test]
fn key_in_use_is_refused_then_free_key_clears_error() {
    let mut c = defaults();
    c.currently_rebinding = Rebinding::Shoot;
    let mut k = nothing();
    k.key_pressed = Some(KEY_LEFT);
    Controls::poll_events(&mut c, &k);
    assert!(c.display_rebind_err);
    assert_eq!(c.shoot, KEY_S);
    assert_eq!(c.currently_rebinding, Rebinding::Shoot);
    k.key_pressed = Some(KEY_A);
    Controls::poll_events(&mut c, &k);
    assert!(!c.display_rebind_err);
    assert_eq!(c.shoot, KEY_A);
    assert_eq!(c.currently_rebinding, Rebinding::Inactive);
}

#[test]
fn rebinding_to_own_key_is_allowed() {
    let mut c = defaults();
    c.currently_rebinding = Rebinding::Right;
    let mut k = nothing();
    k.key_pressed = Some(KEY_RIGHT);
    Controls::poll_events(&mut c, &k);
    assert!(!c.display_rebind_err);
    assert_eq!(c.right, KEY_RIGHT);
    assert_eq!(c.currently_rebinding, Rebinding::Inactive);
}

#[test]
fn keys_other_than_the_four_actions_are_not_checked() {
    let mut c = defaults();
    c.currently_rebinding = Rebinding::Forward;
    let mut k = nothing();
    k.key_pressed = Some(KEY_P);
    Controls::poll_events(&mut c, &k);
    assert_eq!(c.forward, KEY_P);
    assert!(!c.display_rebind_err);
}

#[test]
fn waiting_without_key_changes_nothing() {
    let mut c = defaults();
    c.currently_rebinding = Rebinding::Left;
    let mut i = nothing();
    i.over_shoot = true;
    i.clicked = true;
    Controls::poll_events(&mut c, &i);
    assert_eq!(c.currently_rebinding, Rebinding::Left);
    assert_eq!(c.left, KEY_LEFT);
}

#[test]
fn four_keys_stay_distinct_over_a_session() {
    let mut c = defaults();
    let keys = [KEY_LEFT, KEY_W, KEY_S, KEY_A, KEY_UP, KEY_RIGHT, KEY_A, KEY_W];
    let actions = [Rebinding::Forward, Rebinding::Left, Rebinding::Right, Rebinding::Shoot];
    for (n, key) in keys.iter().enumerate() {
        c.currently_rebinding = actions[n % 4];
        let mut k = nothing();
        k.key_pressed = Some(*key);
        Controls::poll_events(&mut c, &k);
        let b = [c.forward, c.left, c.right, c.shoot];
        for x in 0..4 {
            for y in (x + 1)..4 {
                assert_ne!(b[x], b[y]);
            }
        }
    }
}
