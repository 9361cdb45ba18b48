use vstd::prelude::*;
use crate::screen::GameScreen;

verus! {

// Keyboard key codes, as the windowing layer numbers them.
pub const KEY_M: u32 = 77;
pub const KEY_P: u32 = 80;
pub const KEY_S: u32 = 83;
pub const KEY_BACKSPACE: u32 = 259;
pub const KEY_RIGHT: u32 = 262;
pub const KEY_LEFT: u32 = 263;
pub const KEY_UP: u32 = 265;
pub const KEY_F2: u32 = 291;
pub const KEY_F3: u32 = 292;

/// Which action the controls menu is waiting to bind a new key to.
#[derive(PartialEq, Eq, Structural, Clone, Copy, Debug)]
pub enum Rebinding {
    Inactive,
    Forward,
    Left,
    Right,
    Shoot,
}

/// The key bindings and the state of the key rebinding menu. The menu's
/// button rectangles are floating point and are kept by the caller.
#[derive(Clone, Copy, Debug)]
pub struct Controls {
    pub left: u32,
    pub right: u32,
    pub forward: u32,
    pub shoot: u32,
    pub mute: u32,
    pub volume_up: u32,
    pub volume_down: u32,
    pub pause: u32,
    pub currently_rebinding: Rebinding,
    pub display_rebind_err: bool,
    pub from_menu: GameScreen,
    pub window_width: i32,
    pub window_height: i32,
}

/// The part of the controls that the rebinding menu reads and changes.
pub struct Bindings {
    pub forward: u32,
    pub left: u32,
    pub right: u32,
    pub shoot: u32,
    pub rebinding: Rebinding,
    pub rebind_error: bool,
}

/// What the rebinding menu reads in one frame, with the pointer already
/// tested against its four buttons.
#[derive(Clone, Copy, Debug)]
pub struct RebindInput {
    /// The key that went down this frame, by code, if any.
    pub key_pressed: Option<u32>,
    /// The left mouse button went down this frame.
    pub clicked: bool,
    pub over_forward: bool,
    pub over_left: bool,
    pub over_right: bool,
    pub over_shoot: bool,
}

pub open spec fn or_default(key: Option<u32>, default: u32) -> u32 {
    match key {
        Some(k) => k,
        None => default,
    }
}

/// `key` is already bound to one of the movement and shooting actions other
/// than the one being rebound.
pub open spec fn key_in_use(b: Bindings, key: u32, rebinding: Rebinding) -> bool {
    match rebinding {
        Rebinding::Forward => b.left == key || b.right == key || b.shoot == key,
        Rebinding::Left => b.forward == key || b.right == key || b.shoot == key,
        Rebinding::Right => b.left == key || b.forward == key || b.shoot == key,
        Rebinding::Shoot => b.left == key || b.right == key || b.forward == key,
        Rebinding::Inactive => false,
    }
}

/// The four movement and shooting actions have four different keys.
pub open spec fn bindings_distinct(b: Bindings) -> bool {
    &&& b.forward != b.left
    &&& b.forward != b.right
    &&& b.forward != b.shoot
    &&& b.left != b.right
    &&& b.left != b.shoot
    &&& b.right != b.shoot
}

/// One frame of the rebinding menu. While no action waits for a key, a click
/// on the first button under the pointer (forward, left, right, shoot) makes
/// that action wait. While an action waits, a pressed key that another of
/// the four actions uses is refused and the error shown; any other key
/// becomes the action's key, and the menu stops waiting and hides the error.
pub open spec fn rebind_step(b: Bindings, i: RebindInput) -> Bindings {
    if b.rebinding == Rebinding::Inactive {
        let chosen = if i.over_forward {
            if i.clicked { Rebinding::Forward } else { Rebinding::Inactive }
        } else if i.over_left {
            if i.clicked { Rebinding::Left } else { Rebinding::Inactive }
        } else if i.over_right {
            if i.clicked { Rebinding::Right } else { Rebinding::Inactive }
        } else if i.over_shoot {
            if i.clicked { Rebinding::Shoot } else { Rebinding::Inactive }
        } else {
            Rebinding::Inactive
        };
        Bindings { rebinding: chosen, ..b }
    } else {
        match i.key_pressed {
            None => b,
            Some(k) => {
                if key_in_use(b, k, b.rebinding) {
                    Bindings { rebind_error: true, ..b }
                } else {
                    let r = b.rebinding;
                    Bindings {
                        forward: if r == Rebinding::Forward { k } else { b.forward },
                        left: if r == Rebinding::Left { k } else { b.left },
                        right: if r == Rebinding::Right { k } else { b.right },
                        shoot: if r == Rebinding::Shoot { k } else { b.shoot },
                        rebinding: Rebinding::Inactive,
                        rebind_error: false,
                    }
                }
            },
        }
    }
}

impl Controls {
    pub open spec fn bindings(self) -> Bindings {
        Bindings {
            forward: self.forward,
            left: self.left,
            right: self.right,
            shoot: self.shoot,
            rebinding: self.currently_rebinding,
            rebind_error: self.display_rebind_err,
        }
    }

    /// Every field outside the rebinding menu's and the remembered menu is
    /// the same as in `other`.
    pub open spec fn keys_unchanged_but_bindings(self, other: Controls) -> bool {
        &&& self.mute == other.mute
        &&& self.volume_up == other.volume_up
        &&& self.volume_down == other.volume_down
        &&& self.pause == other.pause
        &&& self.window_width == other.window_width
        &&& self.window_height == other.window_height
    }

    /// Key bindings with a default for each key not given: arrows to steer
    /// and thrust, S to shoot, M to mute, F3 and F2 for volume, P to pause.
    /// Nothing is being rebound, no error is shown, and the controls menu
    /// returns to the main menu.
    pub fn new(
        left: Option<u32>,
        right: Option<u32>,
        forward: Option<u32>,
        shoot: Option<u32>,
        mute: Option<u32>,
        volume_up: Option<u32>,
        volume_down: Option<u32>,
        pause: Option<u32>,
        window_width: i32,
        window_height: i32,
    ) -> (c: Controls)
        ensures
            c.left == or_default(left, KEY_LEFT),
            c.right == or_default(right, KEY_RIGHT),
            c.forward == or_default(forward, KEY_UP),
            c.shoot == or_default(shoot, KEY_S),
            c.mute == or_default(mute, KEY_M),
            c.volume_up == or_default(volume_up, KEY_F3),
            c.volume_down == or_default(volume_down, KEY_F2),
            c.pause == or_default(pause, KEY_P),
            c.currently_rebinding == Rebinding::Inactive,
            !c.display_rebind_err,
            c.from_menu == GameScreen::MainMenu,
            c.window_width == window_width,
            c.window_height == window_height,
    {
        Controls {
            left: key_or(left, KEY_LEFT),
            right: key_or(right, KEY_RIGHT),
            forward: key_or(forward, KEY_UP),
            shoot: key_or(shoot, KEY_S),
            mute: key_or(mute, KEY_M),
            volume_up: key_or(volume_up, KEY_F3),
            volume_down: key_or(volume_down, KEY_F2),
            pause: key_or(pause, KEY_P),
            currently_rebinding: Rebinding::Inactive,
            display_rebind_err: false,
            from_menu: GameScreen::MainMenu,
            window_width,
            window_height,
        }
    }

    fn key_already_in_use(&self, key: u32, rebinding: &Rebinding) -> (in_use: bool)
        ensures
            in_use == key_in_use(self.bindings(), key, *rebinding),
    {
        match rebinding {
            Rebinding::Forward => self.left == key || self.right == key || self.shoot == key,
            Rebinding::Left => self.forward == key || self.right == key || self.shoot == key,
            Rebinding::Right => self.left == key || self.forward == key || self.shoot == key,
            Rebinding::Shoot => self.left == key || self.right == key || self.forward == key,
            Rebinding::Inactive => false,
        }
    }

    /// Runs one frame of the key rebinding menu (see `rebind_step`).
    pub fn poll_events(controls: &mut Controls, input: &RebindInput)
        ensures
            final(controls).bindings() == rebind_step(old(controls).bindings(), *input),
            final(controls).from_menu == old(controls).from_menu,
            final(controls).keys_unchanged_but_bindings(*old(controls)),
    {
        match controls.currently_rebinding {
            Rebinding::Inactive => {
                if input.over_forward {
                    if input.clicked {
                        controls.currently_rebinding = Rebinding::Forward;
                    }
                } else if input.over_left {
                    if input.clicked {
                        controls.currently_rebinding = Rebinding::Left;
                    }
                } else if input.over_right {
                    if input.clicked {
                        controls.currently_rebinding = Rebinding::Right;
                    }
                } else if input.over_shoot {
                    if input.clicked {
                        controls.currently_rebinding = Rebinding::Shoot;
                    }
                }
            },
            _ => {
                match input.key_pressed {
                    Some(key) => {
                        let rebinding = controls.currently_rebinding;
                        if !controls.key_already_in_use(key, &rebinding) {
                            match rebinding {
                                Rebinding::Forward => controls.forward = key,
                                Rebinding::Left => controls.left = key,
                                Rebinding::Right => controls.right = key,
                                Rebinding::Shoot => controls.shoot = key,
                                Rebinding::Inactive => {},
                            }
                            controls.currently_rebinding = Rebinding::Inactive;
                            controls.display_rebind_err = false;
                        } else {
                            controls.display_rebind_err = true;
                        }
                    },
                    None => {},
                }
            },
        }
    }
}

fn key_or(key: Option<u32>, default: u32) -> (k: u32)
    ensures
        k == or_default(key, default),
{
    match key {
        Some(k) => k,
        None => default,
    }
}

/// The keys given when no key is chosen keep the four movement and shooting
/// actions apart.
pub proof fn lemma_default_bindings_distinct(c: Controls)
    requires
        c.left == KEY_LEFT,
        c.right == KEY_RIGHT,
        c.forward == KEY_UP,
        c.shoot == KEY_S,
    ensures
        bindings_distinct(c.bindings()),
{
}

/// Rebinding never gives two of the movement and shooting actions the same
/// key: if their keys differ before a frame of the rebinding menu, they
/// differ after it.
pub proof fn lemma_rebinding_keeps_keys_distinct(b: Bindings, i: RebindInput)
    requires
        bindings_distinct(b),
    ensures
        bindings_distinct(rebind_step(b, i)),
{
}

/// A key that another action already uses is refused: the four keys and
/// the action waiting for a key stay as they were and the error is shown.
pub proof fn lemma_key_in_use_is_refused(b: Bindings, i: RebindInput, k: u32)
    requires
        b.rebinding != Rebinding::Inactive,
        i.key_pressed == Some(k),
        key_in_use(b, k, b.rebinding),
    ensures
        rebind_step(b, i) == (Bindings { rebind_error: true, ..b }),
{
}

/// A free key is bound to the waiting action, which then no longer waits,
/// and the error is hidden.
pub proof fn lemma_free_key_is_bound(b: Bindings, i: RebindInput, k: u32)
    requires
        b.rebinding != Rebinding::Inactive,
        i.key_pressed == Some(k),
        !key_in_use(b, k, b.rebinding),
    ensures
        rebind_step(b, i).rebinding == Rebinding::Inactive,
        !rebind_step(b, i).rebind_error,
        b.rebinding == Rebinding::Forward ==> rebind_step(b, i).forward == k,
        b.rebinding == Rebinding::Left ==> rebind_step(b, i).left == k,
        b.rebinding == Rebinding::Right ==> rebind_step(b, i).right == k,
        b.rebinding == Rebinding::Shoot ==> rebind_step(b, i).shoot == k,
{
}

/// While no action waits for a key, a click makes the action of the first
/// button under the pointer (forward, left, right, shoot) wait; without a
/// click, or with no button under the pointer, nothing waits. Keys and the
/// error display are untouched.
pub proof fn lemma_click_chooses_action(b: Bindings, i: RebindInput)
    requires
        b.rebinding == Rebinding::Inactive,
    ensures
        ({
            let n = rebind_step(b, i);
            &&& n.forward == b.forward && n.left == b.left && n.right == b.right && n.shoot == b.shoot
            &&& n.rebind_error == b.rebind_error
            &&& !i.clicked ==> n.rebinding == Rebinding::Inactive
            &&& i.clicked && i.over_forward ==> n.rebinding == Rebinding::Forward
            &&& i.clicked && !i.over_forward && i.over_left ==> n.rebinding == Rebinding::Left
            &&& i.clicked && !i.over_forward && !i.over_left && i.over_right ==> n.rebinding == Rebinding::Right
            &&& i.clicked && !i.over_forward && !i.over_left && !i.over_right && i.over_shoot
                ==> n.rebinding == Rebinding::Shoot
            &&& !i.over_forward && !i.over_left && !i.over_right && !i.over_shoot
                ==> n.rebinding == Rebinding::Inactive
        }),
{
}

/// While an action waits, a frame without a key press changes nothing, and
/// a pressed key changes only the waiting action's key: the other three
/// keys stay.
pub proof fn lemma_waiting_frame(b: Bindings, i: RebindInput)
    requires
        b.rebinding != Rebinding::Inactive,
    ensures
        i.key_pressed is None ==> rebind_step(b, i) == b,
        b.rebinding != Rebinding::Forward ==> rebind_step(b, i).forward == b.forward,
        b.rebinding != Rebinding::Left ==> rebind_step(b, i).left == b.left,
        b.rebinding != Rebinding::Right ==> rebind_step(b, i).right == b.right,
        b.rebinding != Rebinding::Shoot ==> rebind_step(b, i).shoot == b.shoot,
{
}

/// A key is in use exactly when one of the three other actions has it; the
/// waiting action's own key and keys of no action are free.
pub proof fn lemma_key_in_use_means_taken(b: Bindings, k: u32, r: Rebinding)
    ensures
        r == Rebinding::Inactive ==> !key_in_use(b, k, r),
        r == Rebinding::Forward ==> (key_in_use(b, k, r) <==> (k == b.left || k == b.right || k == b.shoot)),
        r == Rebinding::Left ==> (key_in_use(b, k, r) <==> (k == b.forward || k == b.right || k == b.shoot)),
        r == Rebinding::Right ==> (key_in_use(b, k, r) <==> (k == b.forward || k == b.left || k == b.shoot)),
        r == Rebinding::Shoot ==> (key_in_use(b, k, r) <==> (k == b.forward || k == b.left || k == b.right)),
{
}

/// A chosen key is kept; a missing one takes the default.
pub proof fn lemma_or_default(k: u32, default: u32)
    ensures
        or_default(Some(k), default) == k,
        or_default(None, default) == default,
{
}

} // verus!
