# aviation

A small aircraft simulator and a vertical shoot-'em-up ("plane war") whose
game logic is a Verus-verified library.

- `src/control.rs` – directional input, control factors, controller output.
- `src/path.rs` – the bounded flight trail and its clear button.
- `src/plane_war/` – game rules: flow (input intent, firing, explosion,
  game over), combat (bullet hits, scoring), difficulty curve, enemy
  spawning, HUD text.
- `app/` – the Bevy programs (rendering, input devices, floating-point
  motion, asset loading, dora nodes behind the `dora` feature).
- `tests/` – tests of the library.

## Rules worth knowing

- Each bullet destroys the first enemy it overlaps that no earlier bullet of
  the same step destroyed; an enemy is destroyed, and scored, once.
- The difficulty rises in capped tiers: spawn intervals stop falling at
  0.30 s (enemies) and 1.50 s (bombs), the big-enemy share stops at 55 %, and
  fall speeds stop rising at level 15, the last level at which the bomb speed
  range is still non-empty, so both speed ranges stay non-empty.
- Retry or exit on the game-over screen records the best score and writes it
  to the local save; the save is the score in decimal and reads back as the
  same score.
- Intervals are kept in hundredths of a second and the big-enemy chance in
  percent, so the curve is exact integer arithmetic; the application
  converts them to seconds and fractions.

## Controller command

The controller sends `cmd` as five `f32` values while any key is active:
`[rotation, movement, fire, retry, exit]`, each in {-1, 0, 1} (the last
three in {0, 1}). The aircraft node reads the first two, the plane-war node
all five (horizontal move = -rotation, vertical move = movement).

## Application notes

The application resets both spawn timers to the current intervals whenever
the difficulty rises. Assets are read at run time from `assets/` (or
`$AVIATION_ASSETS`); the best score is saved under
`$XDG_CONFIG_HOME/aviation/high_score` (default `~/.config`). Sound and the
dora nodes sit behind the `audio` and `dora` features.
