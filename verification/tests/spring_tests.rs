use animate::clock::{is_animating, tick, Clock};
use animate::mode::{Alternate, Once};
use animate::spring::Spring;

fn halfway(c: &i64, t: &i64, v: &i64, dt: Option<usize>) -> (i64, i64) {
    match dt {
        None => (*c, 0),
        Some(_) => {
            let step = (t - c) / 2;
            (c + step, v + 1)
        }
    }
}

fn arrived(p: &i64, t: &i64, _v: &i64) -> bool {
    p == t
}

#[test]
fn once_new_rests_at_initial() {
    let s: Spring<i64, i64, Once> = Spring::new(7);
    assert_eq!(*s.get(), 7);
    assert_eq!(*s.target(), 7);
    assert!(!s.state.active);
    assert!(s.advancing);
}

#[test]
fn once_set_reports_target() {
    let mut s: Spring<i64, i64, Once> = Spring::new(0);
    s.set(10);
    assert_eq!(*s.target(), 10);
    assert_eq!(*s.get(), 0);
    assert!(s.state.active);
}

#[test]
fn once_inactive_update_does_nothing() {
    let mut s: Spring<i64, i64, Once> = Spring::new(3);
    let mut c = Clock::new();
    tick(&mut c, 16);
    s.update(&mut c, halfway, arrived);
    assert_eq!(*s.get(), 3);
    assert!(!is_animating(&c));
}

#[test]
fn once_moves_then_lands_on_target() {
    let mut s: Spring<i64, i64, Once> = Spring::new(0);
    let mut c = Clock::new();
    s.set(4);
    tick(&mut c, 16);
    s.update(&mut c, halfway, arrived);
    assert_eq!(*s.get(), 2);
    assert_eq!(s.state.velocity, 1);
    assert!(is_animating(&c));
    assert_eq!(*s.target(), 4);
    tick(&mut c, 16);
    s.update(&mut c, halfway, arrived);
    assert_eq!(*s.get(), 3);
    tick(&mut c, 16);
    s.update(&mut c, halfway, arrived);
    // (4 - 3) / 2 == 0: the step stays at 3
    assert_eq!(*s.get(), 3);
    let mut s2: Spring<i64, i64, Once> = Spring::new(2);
    s2.set(4);
    let mut c2 = Clock::new();
    tick(&mut c2, 16);
    s2.update(&mut c2, halfway, |_p: &i64, _t: &i64, _v: &i64| true);
    assert_eq!(*s2.get(), 4);
    assert_eq!(*s2.target(), 4);
    assert_eq!(s2.state.target, 0);
    assert_eq!(s2.state.velocity, 0);
    assert!(!s2.state.active);
    assert!(!is_animating(&c2));
}

#[test]
fn once_step_receives_last_delta() {
    let mut s: Spring<i64, i64, Once> = Spring::new(0);
    let mut c = Clock::new();
    s.set(100);
    tick(&mut c, 25);
    s.update(
        &mut c,
        |c: &i64, _t: &i64, _v: &i64, dt: Option<usize>| (*c + dt.unwrap_or(0) as i64, 0),
        |_p: &i64, _t: &i64, _v: &i64| false,
    );
    assert_eq!(*s.get(), 25);
}

#[test]
fn alternate_swaps_endpoints_when_settled() {
    let mut s: Spring<i64, i64, Alternate> = Spring::new(1);
    let mut c = Clock::new();
    s.set(9);
    assert!(s.state.pending);
    assert_eq!(*s.target(), 9);
    tick(&mut c, 16);
    s.update(&mut c, halfway, |_p: &i64, _t: &i64, _v: &i64| true);
    assert_eq!(*s.get(), 9);
    assert_eq!(*s.target(), 1);
    assert_eq!(s.state.origin, 9);
    assert!(!s.advancing);
    assert!(!s.state.pending);
    assert!(s.state.active);
    assert!(is_animating(&c));
    tick(&mut c, 16);
    s.update(&mut c, halfway, |_p: &i64, _t: &i64, _v: &i64| true);
    assert_eq!(*s.get(), 1);
    assert_eq!(*s.target(), 9);
    assert!(s.advancing);
}

#[test]
fn alternate_moves_without_settling() {
    let mut s: Spring<i64, i64, Alternate> = Spring::new(0);
    let mut c = Clock::new();
    s.set(8);
    tick(&mut c, 16);
    s.update(&mut c, halfway, arrived);
    assert_eq!(*s.get(), 4);
    assert_eq!(s.state.origin, 0);
    assert_eq!(*s.target(), 8);
    assert!(s.advancing);
    assert!(is_animating(&c));
}

#[test]
fn alternate_inactive_update_does_nothing() {
    let mut s: Spring<i64, i64, Alternate> = Spring::new(5);
    let mut c = Clock::new();
    s.update(&mut c, halfway, arrived);
    assert_eq!(*s.get(), 5);
    assert!(!is_animating(&c));
}
