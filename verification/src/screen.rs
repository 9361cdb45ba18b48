use vstd::prelude::*;
use crate::controls::{Controls, RebindInput, Rebinding, rebind_step};
use crate::player::Player;

verus! {

/// The screens the game moves between.
#[derive(PartialEq, Eq, Structural, Clone, Copy, Debug)]
pub enum GameScreen {
    MainMenu,
    Gameplay,
    ControlMenu,
    Paused,
    GameOver,
}

/// What the caller read from the keyboard and mouse in one frame, with the
/// pointer already tested against the on-screen buttons.
#[derive(Clone, Copy, Debug)]
pub struct FrameInput {
    /// The left mouse button went down this frame.
    pub clicked: bool,
    /// The pointer is over the "start game" button.
    pub over_start: bool,
    /// The pointer is over the "controls" button.
    pub over_controls: bool,
    /// The pointer is over the "back to main menu" button.
    pub over_back: bool,
    /// The pause key went down this frame.
    pub pause_pressed: bool,
    /// The shoot key went down this frame.
    pub shoot_pressed: bool,
    /// Backspace went down this frame.
    pub backspace_pressed: bool,
    /// The ship's shot delay has run out.
    pub shot_ready: bool,
    /// What the key rebinding menu reads.
    pub rebind: RebindInput,
}

/// What one frame of input does to the screen flow.
pub struct ScreenStep {
    pub screen: GameScreen,
    pub from_menu: GameScreen,
    pub fire: bool,
    pub reset_requested: bool,
}

/// The screen flow for one frame of input, given the screen the controls
/// menu returns to and whether a key is being rebound:
/// - main menu: a click on "start" opens the game, a click on "controls"
///   opens the controls menu, remembering the main menu;
/// - game: the pause key pauses; the shoot key fires when the shot delay is
///   over (also in the frame that pauses);
/// - controls menu: backspace goes back where the menu was opened from,
///   unless a key is being rebound;
/// - paused: the pause key resumes, a click on "controls" opens the
///   controls menu, remembering the pause screen;
/// - game over: a click on "back" returns to the main menu and asks for a
///   fresh game.
pub open spec fn screen_step(
    screen: GameScreen,
    from_menu: GameScreen,
    rebinding: Rebinding,
    i: FrameInput,
) -> ScreenStep {
    match screen {
        GameScreen::MainMenu => {
            if i.over_controls && i.clicked {
                ScreenStep { screen: GameScreen::ControlMenu, from_menu: GameScreen::MainMenu, fire: false, reset_requested: false }
            } else if i.over_start && i.clicked {
                ScreenStep { screen: GameScreen::Gameplay, from_menu, fire: false, reset_requested: false }
            } else {
                ScreenStep { screen, from_menu, fire: false, reset_requested: false }
            }
        },
        GameScreen::Gameplay => ScreenStep {
            screen: if i.pause_pressed { GameScreen::Paused } else { screen },
            from_menu,
            fire: i.shoot_pressed && i.shot_ready,
            reset_requested: false,
        },
        GameScreen::ControlMenu => ScreenStep {
            screen: if i.backspace_pressed && rebinding == Rebinding::Inactive { from_menu } else { screen },
            from_menu,
            fire: false,
            reset_requested: false,
        },
        GameScreen::Paused => {
            if i.over_controls && i.clicked {
                ScreenStep { screen: GameScreen::ControlMenu, from_menu: GameScreen::Paused, fire: false, reset_requested: false }
            } else if i.pause_pressed {
                ScreenStep { screen: GameScreen::Gameplay, from_menu, fire: false, reset_requested: false }
            } else {
                ScreenStep { screen, from_menu, fire: false, reset_requested: false }
            }
        },
        GameScreen::GameOver => {
            if i.over_back && i.clicked {
                ScreenStep { screen: GameScreen::MainMenu, from_menu, fire: false, reset_requested: true }
            } else {
                ScreenStep { screen, from_menu, fire: false, reset_requested: false }
            }
        },
    }
}

/// Handles one frame of input: moves between screens, runs the key
/// rebinding menu while the controls menu is open, and flags a requested
/// reset. Returns whether the ship fires a shot this frame (the caller then
/// spawns the projectile, plays the laser and restarts the shot delay).
pub fn poll_events(
    active_screen: &mut GameScreen,
    controls: &mut Controls,
    should_reset_game_state: &mut bool,
    input: &FrameInput,
) -> (fire: bool)
    ensures
        ({
            let step = screen_step(*old(active_screen), old(controls).from_menu, old(controls).currently_rebinding, *input);
            &&& *final(active_screen) == step.screen
            &&& fire == step.fire
            &&& *final(should_reset_game_state) == (*old(should_reset_game_state) || step.reset_requested)
            &&& final(controls).from_menu == step.from_menu
            &&& if *old(active_screen) == GameScreen::ControlMenu {
                final(controls).bindings() == rebind_step(old(controls).bindings(), input.rebind)
            } else {
                final(controls).bindings() == old(controls).bindings()
            }
            &&& final(controls).keys_unchanged_but_bindings(*old(controls))
        }),
{
    let mut fire = false;
    match *active_screen {
        GameScreen::MainMenu => {
            if input.over_start && input.clicked {
                *active_screen = GameScreen::Gameplay;
            }
            if input.over_controls && input.clicked {
                controls.from_menu = GameScreen::MainMenu;
                *active_screen = GameScreen::ControlMenu;
            }
        },
        GameScreen::Gameplay => {
            if input.pause_pressed {
                *active_screen = GameScreen::Paused;
            }
            if input.shoot_pressed && input.shot_ready {
                fire = true;
            }
        },
        GameScreen::ControlMenu => {
            if input.backspace_pressed && controls.currently_rebinding == Rebinding::Inactive {
                *active_screen = controls.from_menu;
            }
            Controls::poll_events(controls, &input.rebind);
        },
        GameScreen::Paused => {
            if input.pause_pressed {
                *active_screen = GameScreen::Gameplay;
            }
            if input.over_controls && input.clicked {
                controls.from_menu = GameScreen::Paused;
                *active_screen = GameScreen::ControlMenu;
            }
        },
        GameScreen::GameOver => {
            if input.over_back && input.clicked {
                *should_reset_game_state = true;
                *active_screen = GameScreen::MainMenu;
            }
        },
    }
    fire
}

/// What the simulation does in a frame, by screen.
#[derive(PartialEq, Eq, Structural, Clone, Copy, Debug)]
pub enum UpdatePhase {
    /// Run the game: move the ship, asteroids and shots, resolve hits.
    Simulate,
    /// Start a fresh game: new ship, score and asteroids.
    Reset,
    /// Nothing moves.
    Idle,
}

/// Chooses what the simulation does this frame: the game runs only on the
/// game screen; a requested reset happens once, on the main menu.
pub fn update(active_screen: GameScreen, should_reset_game_state: &mut bool) -> (phase: UpdatePhase)
    ensures
        phase == match active_screen {
            GameScreen::Gameplay => UpdatePhase::Simulate,
            GameScreen::MainMenu => if *old(should_reset_game_state) { UpdatePhase::Reset } else { UpdatePhase::Idle },
            _ => UpdatePhase::Idle,
        },
        *final(should_reset_game_state) == (*old(should_reset_game_state) && phase != UpdatePhase::Reset),
{
    match active_screen {
        GameScreen::Gameplay => UpdatePhase::Simulate,
        GameScreen::MainMenu => {
            if *should_reset_game_state {
                *should_reset_game_state = false;
                UpdatePhase::Reset
            } else {
                UpdatePhase::Idle
            }
        },
        _ => UpdatePhase::Idle,
    }
}

/// After the ship has moved during play, a ship without health ends the game.
pub fn check_game_over(active_screen: &mut GameScreen, player: &Player)
    ensures
        *final(active_screen) == if player.health == 0 { GameScreen::GameOver } else { *old(active_screen) },
{
    if !player.is_alive() {
        *active_screen = GameScreen::GameOver;
    }
}


/// The controls menu only ever returns to the main menu or to the pause
/// screen: if the remembered menu is one of these, it stays one of these.
pub proof fn lemma_controls_menu_returns_to_a_menu(
    screen: GameScreen,
    from_menu: GameScreen,
    rebinding: Rebinding,
    i: FrameInput,
)
    requires
        from_menu == GameScreen::MainMenu || from_menu == GameScreen::Paused,
    ensures
        screen_step(screen, from_menu, rebinding, i).from_menu == GameScreen::MainMenu
            || screen_step(screen, from_menu, rebinding, i).from_menu == GameScreen::Paused,
{
}

/// Opening the controls menu from a screen and leaving it with backspace,
/// while no key is being rebound, comes back to that screen.
pub proof fn lemma_controls_menu_round_trip(
    screen: GameScreen,
    from_menu: GameScreen,
    rebinding: Rebinding,
    open: FrameInput,
    leave: FrameInput,
)
    requires
        screen != GameScreen::ControlMenu,
        screen_step(screen, from_menu, rebinding, open).screen == GameScreen::ControlMenu,
        leave.backspace_pressed,
    ensures
        screen_step(
            GameScreen::ControlMenu,
            screen_step(screen, from_menu, rebinding, open).from_menu,
            Rebinding::Inactive,
            leave,
        ).screen == screen,
{
}

/// Shots are fired only while playing.
pub proof fn lemma_fire_only_in_play(screen: GameScreen, from_menu: GameScreen, rebinding: Rebinding, i: FrameInput)
    ensures
        screen_step(screen, from_menu, rebinding, i).fire ==> screen == GameScreen::Gameplay,
{
}

/// The game is paused only from play, or by leaving the controls menu that
/// was opened from the pause screen.
pub proof fn lemma_pause_entered_from_play(screen: GameScreen, from_menu: GameScreen, rebinding: Rebinding, i: FrameInput)
    ensures
        screen_step(screen, from_menu, rebinding, i).screen == GameScreen::Paused && screen != GameScreen::Paused
            ==> screen == GameScreen::Gameplay || (screen == GameScreen::ControlMenu && from_menu == GameScreen::Paused),
{
}

/// A fresh game is asked for only from the game over screen, which then
/// shows the main menu.
pub proof fn lemma_reset_only_after_game_over(screen: GameScreen, from_menu: GameScreen, rebinding: Rebinding, i: FrameInput)
    ensures
        screen_step(screen, from_menu, rebinding, i).reset_requested ==> screen == GameScreen::GameOver
            && screen_step(screen, from_menu, rebinding, i).screen == GameScreen::MainMenu,
{
}

/// The main menu reacts only to clicks: a click on CONTROLS opens the
/// controls menu, which will return to the main menu; otherwise a click on
/// START opens the game; nothing else leaves the main menu, fires, or asks
/// for a reset.
pub proof fn lemma_main_menu_frame(from_menu: GameScreen, rebinding: Rebinding, i: FrameInput)
    ensures
        ({
            let step = screen_step(GameScreen::MainMenu, from_menu, rebinding, i);
            &&& !step.fire
            &&& !step.reset_requested
            &&& !i.clicked ==> step.screen == GameScreen::MainMenu && step.from_menu == from_menu
            &&& i.clicked && i.over_controls ==> step.screen == GameScreen::ControlMenu
                && step.from_menu == GameScreen::MainMenu
            &&& i.clicked && !i.over_controls && i.over_start ==> step.screen == GameScreen::Gameplay
                && step.from_menu == from_menu
            &&& !i.over_controls && !i.over_start ==> step.screen == GameScreen::MainMenu
                && step.from_menu == from_menu
        }),
{
}

/// During play the pause key pauses and the shoot key fires when the shot
/// delay is over; the mouse does nothing.
pub proof fn lemma_play_frame(from_menu: GameScreen, rebinding: Rebinding, i: FrameInput)
    ensures
        ({
            let step = screen_step(GameScreen::Gameplay, from_menu, rebinding, i);
            &&& step.screen == if i.pause_pressed { GameScreen::Paused } else { GameScreen::Gameplay }
            &&& step.fire == (i.shoot_pressed && i.shot_ready)
            &&& step.from_menu == from_menu
            &&& !step.reset_requested
        }),
{
}

/// The controls menu is left only with backspace while no key is being
/// rebound, and then for the screen it was opened from.
pub proof fn lemma_controls_menu_frame(from_menu: GameScreen, rebinding: Rebinding, i: FrameInput)
    ensures
        ({
            let step = screen_step(GameScreen::ControlMenu, from_menu, rebinding, i);
            &&& step.screen == if i.backspace_pressed && rebinding == Rebinding::Inactive {
                from_menu
            } else {
                GameScreen::ControlMenu
            }
            &&& step.from_menu == from_menu
            &&& !step.fire
            &&& !step.reset_requested
        }),
{
}

/// On the pause screen a click on CONTROLS opens the controls menu, which
/// will return to the pause screen; otherwise the pause key resumes play.
pub proof fn lemma_paused_frame(from_menu: GameScreen, rebinding: Rebinding, i: FrameInput)
    ensures
        ({
            let step = screen_step(GameScreen::Paused, from_menu, rebinding, i);
            &&& !step.fire
            &&& !step.reset_requested
            &&& i.clicked && i.over_controls ==> step.screen == GameScreen::ControlMenu
                && step.from_menu == GameScreen::Paused
            &&& !(i.clicked && i.over_controls) ==> step.from_menu == from_menu
                && step.screen == if i.pause_pressed { GameScreen::Gameplay } else { GameScreen::Paused }
        }),
{
}

/// The game over screen is left only by a click on the back button, which
/// shows the main menu and asks for a fresh game.
pub proof fn lemma_game_over_frame(from_menu: GameScreen, rebinding: Rebinding, i: FrameInput)
    ensures
        ({
            let step = screen_step(GameScreen::GameOver, from_menu, rebinding, i);
            &&& !step.fire
            &&& step.from_menu == from_menu
            &&& step.reset_requested == (i.clicked && i.over_back)
            &&& step.screen == if i.clicked && i.over_back { GameScreen::MainMenu } else { GameScreen::GameOver }
        }),
{
}

} // verus!
