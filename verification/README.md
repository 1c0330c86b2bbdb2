# animate

Frame-driven animations for terminal user interfaces: tweens that run
between two values over a duration, and springs that move towards a target
with damped physics, all advanced by a shared frame clock.

Layout:

- `src/` — the verified library (Verus):
  - `clock.rs`: the frame clock (`tick`, `frame`, `is_animating`) and its
    laws over any sequence of calls;
  - `mode.rs`: the playback modes `Once`, `Cycle`, `Alternate`;
  - `spring.rs`: the spring state machine for the `Once` and `Alternate`
    modes; the physics step and the rest test are closures supplied by the
    caller;
  - `tween.rs`: the tween state machine for the `Cycle` mode; durations are
    exact fractions of milliseconds, and easing and interpolation are a
    closure that receives the fraction of the cycle reached;
  - `distance.rs`: the prefix distance between strings;
  - `attribute.rs`: every decision of the `#[animate]` attribute (field
    kinds, modes, paths, module names, errors);
  - `text.rs`: string helpers.
- `app/` — ordinary Rust around it: the process-wide clock, the `Animate`
  trait, the floating-point easing and spring physics, number and color
  implementations, and the token handling of `#[animate]` with `syn`,
  `darling` and `quote`.
- `tests/` — tests of the library.
