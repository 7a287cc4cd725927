# game — verified timing cores of a client's skill effects

This crate holds the decision logic behind a set of skill and status
effects of a classic MMO client: when each primitive spawns, how its alpha,
size and angle evolve frame by frame, which primitives are alive, and when
an effect reports that it is finished. Every function carries a Verus
contract and every module states its laws as public proof functions.

## Conventions

* Time is counted in 60 fps frames. Where an effect's curves run on
  fractional time, its `_in_ticks` functions and `new_in_ticks` clocks
  count ticks, a caller-chosen `1/ticks` of a frame, so a fractional frame
  count is kept exactly; the whole-frame functions are the case of one tick
  a frame. Effects whose every decision falls on a whole frame (and the
  stepped ones, which advance a frame at a time) count whole frames. The
  renderer turns its wall-clock delta into frames or ticks and calls
  `advance` / `tick` / `step` / `update`.
* Quantities are kept exact: alphas, sizes and distances are integers in a
  unit documented in each module (`1/255` of full alpha, `1/20` of a world
  unit, thirds of a frame, and so on, divided further by the ticks per
  frame or their square where time is counted in ticks), so a contract can
  pin every value.
* Trigonometry, positions in world space, and draw-list construction stay
  with the renderer: a module hands out the numbers they are computed from
  (angles in degrees, radii, fade levels).
* Random layouts come from one linear congruential generator (`rng`),
  seeded by the caller; contracts state which draws each object takes.

## Layout

* `src/lib.rs` — the module list.
* `src/draw.rs` — `EffectStatus` and `BlendKind`, shared by every effect.
* `src/rng.rs`, `src/bursts.rs`, `src/grains.rs` — the generator, periodic
  spawn trains, and seeded grain fields reused by several effects.
* One module per effect family (`src/warp.rs`, `src/saint_casting.rs`, …).
* `tests/` — scenario tests against the public API, one file per family.
