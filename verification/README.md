# asteroidz

An asteroid shooter whose game rules are a verified library.

- `src/` (verified): the screen flow (`screen`), key bindings and the
  rebinding menu (`controls`), the ship's hull, engine sprite and blink
  (`player`), the sound decisions (`audio_manager`), scoring, hit
  bookkeeping and asteroid waves (`game_state`), and the random edge picks
  of a wave (`random`, through `rand`).
- `app/`: the raylib program around it: window, input, drawing, sound
  output, and all floating-point motion, timers and collision tests. It
  hands the library the outcomes of its comparisons and carries out the
  actions the library returns.
