use animate::mode::Once;
use animate::spring::Spring;
use animate::clock::{frame, is_animating, tick, Clock};

#[test]
fn new_clock_starts_at_zero() {
    let c = Clock::new();
    assert_eq!(frame(&c), 0);
    assert_eq!(c.last_delta(), 0);
    assert!(!is_animating(&c));
}

#[test]
fn tick_accumulates_frame_time() {
    let mut c = Clock::new();
    tick(&mut c, 16);
    tick(&mut c, 17);
    assert_eq!(frame(&c), 33);
    assert_eq!(c.last_delta(), 17);
}

#[test]
fn tick_clears_animating() {
    let mut c = Clock::new();
    c.animating = true;
    assert!(is_animating(&c));
    tick(&mut c, 5);
    assert!(!is_animating(&c));
}

#[test]
fn tick_wraps_around() {
    let mut c = Clock::new();
    tick(&mut c, usize::MAX);
    tick(&mut c, 3);
    assert_eq!(frame(&c), 2);
    assert_eq!(c.last_delta(), 3);
}

#[test]
fn frame_is_sum_of_many_ticks() {
    let mut c = Clock::new();
    let deltas = [1usize, 16, 0, 33, 250, 7];
    for d in deltas {
        tick(&mut c, d);
    }
    assert_eq!(frame(&c), deltas.iter().sum::<usize>());
    assert_eq!(c.last_delta(), 7);
}

#[test]
fn animating_tracks_moves_since_last_tick() {
    let mut c = Clock::new();
    let mut s: Spring<i64, i64, Once> = Spring::new(0);
    s.set(10);
    let step = |c: &i64, t: &i64, _v: &i64, _d: Option<usize>| (c + (t - c) / 2, 0);
    let settled = |p: &i64, t: &i64, _v: &i64| p == t;
    tick(&mut c, 16);
    assert!(!is_animating(&c));
    s.update(&mut c, step, settled);
    assert!(is_animating(&c));
    assert!(is_animating(&c));
    tick(&mut c, 16);
    assert!(!is_animating(&c));
    let mut idle: Spring<i64, i64, Once> = Spring::new(0);
    idle.update(&mut c, step, settled);
    assert!(!is_animating(&c));
}
