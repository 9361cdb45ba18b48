//! Game rules of an asteroid shooter: the screen flow, key bindings and their
//! rebinding menu, the ship's hull and thruster states, the sound decisions,
//! scoring and asteroid waves. Everything that moves in floating point
//! (positions, velocities, timers) is left to the caller, which hands the
//! library the outcomes of its comparisons as plain values.

pub mod player;
pub mod controls;
pub mod screen;
pub mod audio_manager;
pub mod game_state;
mod random;
