use animate::clock::{is_animating, tick, Clock};
use animate::mode::Cycle;
use animate::tween::Tween;

fn lerp(a: &i64, b: &i64, n: u64, d: u64) -> i64 {
    a + (b - a) * n as i64 / d as i64
}

#[test]
fn new_tween_clamps_zero_duration() {
    let t: Tween<i64, Cycle> = Tween::new(5, 0, 1);
    assert_eq!(t.state.duration, 1);
    assert_eq!(*t.get(), 5);
    assert_eq!(t.state.started_at, None);
}

#[test]
fn unstarted_tween_keeps_value() {
    let mut t: Tween<i64, Cycle> = Tween::new(5, 100, 1);
    let mut c = Clock::new();
    tick(&mut c, 10);
    t.update(&mut c, lerp);
    assert_eq!(*t.get(), 5);
    assert!(!is_animating(&c));
}

#[test]
fn cycle_samples_phase_and_repeats() {
    let mut t: Tween<i64, Cycle> = Tween::new(0, 100, 1);
    let mut c = Clock::new();
    tick(&mut c, 50);
    t.set(1000, &c);
    assert_eq!(*t.target(), 1000);
    assert_eq!(t.state.started_at, Some(50));
    t.update(&mut c, lerp);
    assert_eq!(*t.get(), 0);
    assert!(is_animating(&c));
    tick(&mut c, 25);
    t.update(&mut c, lerp);
    assert_eq!(*t.get(), 250);
    tick(&mut c, 100);
    t.update(&mut c, lerp);
    assert_eq!(*t.get(), 250);
    tick(&mut c, 50);
    t.update(&mut c, lerp);
    assert_eq!(*t.get(), 750);
}

#[test]
fn cycle_set_takes_current_as_start() {
    let mut t: Tween<i64, Cycle> = Tween::new(40, 10, 1);
    let mut c = Clock::new();
    t.set(80, &c);
    t.update(&mut c, lerp);
    assert_eq!(t.state.start, 40);
    assert!(!t.state.pending);
    tick(&mut c, 5);
    t.update(&mut c, lerp);
    assert_eq!(*t.get(), 60);
}

#[test]
fn cycle_phase_is_zero_before_start() {
    let mut t: Tween<i64, Cycle> = Tween::new(0, 10, 1);
    let mut c = Clock::new();
    tick(&mut c, 100);
    t.set(10, &c);
    t.state.started_at = Some(200);
    t.update(&mut c, lerp);
    assert_eq!(*t.get(), 0);
}

#[test]
fn zero_duration_always_samples_start() {
    let mut t: Tween<i64, Cycle> = Tween::new(3, 0, 1);
    let mut c = Clock::new();
    t.set(30, &c);
    tick(&mut c, 7);
    t.update(&mut c, lerp);
    assert_eq!(*t.get(), 3);
}

#[test]
fn fractional_duration_is_exact() {
    // 1.5 ms, written as 3 / 2
    let mut t: Tween<i64, Cycle> = Tween::new(0, 3, 2);
    let mut c = Clock::new();
    t.set(300, &c);
    tick(&mut c, 2);
    // 2 ms into a 1.5 ms cycle is 0.5 ms in, a third of the cycle
    t.update(&mut c, lerp);
    assert_eq!(*t.get(), 100);
    tick(&mut c, 1);
    // 3 ms is exactly two cycles
    t.update(&mut c, lerp);
    assert_eq!(*t.get(), 0);
}
