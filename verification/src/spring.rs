//! Spring animations. The physics is supplied by the caller as two closures:
//! `step(current, target, velocity, dt)` integrates one step and returns the
//! new position and velocity, where `dt` is `Some(ms)` for a frame of `ms`
//! milliseconds and `None` for a step of zero length (used to place the
//! spring exactly on a value); `settled(position, target, velocity)` says
//! whether a step has come to rest. This module holds the state machine that
//! decides what happens with their results.

use vstd::prelude::*;
use crate::clock::{marked, Clock};
use crate::mode::{Alternate, Mode, Once};
use core::marker::PhantomData;

verus! {

/// The state of a spring: where it is, where it started, where it is going,
/// its velocity, and whether it is moving.
pub struct SpringState<T, V> {
    pub current: T,
    pub origin: T,
    pub target: T,
    pub velocity: V,
    pub active: bool,
    pub pending: bool,
}

impl<T: Default, V: Default> SpringState<T, V> {
    /// A spring at rest at `initial`; origin, target and velocity hold their
    /// default values.
    pub fn new(initial: T) -> (s: Self)
        ensures
            s.current == initial,
            call_ensures(T::default, (), s.origin),
            call_ensures(T::default, (), s.target),
            call_ensures(V::default, (), s.velocity),
            !s.active,
            !s.pending,
    {
        let origin = T::default();
        let target = T::default();
        let velocity = V::default();
        SpringState { current: initial, origin, target, velocity, active: false, pending: false }
    }
}

/// A spring animation in mode `M`.
pub struct Spring<T, V, M: Mode> {
    pub state: SpringState<T, V>,
    pub mode: PhantomData<M>,
    pub advancing: bool,
}

impl<T: Default, V: Default, M: Mode> Spring<T, V, M> {
    /// A spring at rest at `initial`, advancing.
    pub fn new(initial: T) -> (s: Self)
        ensures
            s.state.current == initial,
            call_ensures(T::default, (), s.state.origin),
            call_ensures(T::default, (), s.state.target),
            call_ensures(V::default, (), s.state.velocity),
            !s.state.active,
            !s.state.pending,
            s.advancing,
    {
        Spring { state: SpringState::new(initial), mode: PhantomData, advancing: true }
    }

    /// The current value.
    pub fn get(&self) -> (r: &T)
        ensures
            *r == self.state.current,
    {
        &self.state.current
    }
}

// ---------------------------------------------------------------- Once

/// What `target()` reports for a one-shot spring: the target while it moves,
/// the current value once it rests.
pub open spec fn once_target<T, V>(s: SpringState<T, V>) -> T {
    if s.active { s.target } else { s.current }
}

/// The state of a one-shot spring after `set(x)`.
pub open spec fn once_set<T, V>(s: SpringState<T, V>, x: T) -> SpringState<T, V> {
    SpringState { target: x, active: true, ..s }
}

/// One step of an active one-shot spring whose integration gave position `p`
/// and velocity `v`: if that step has settled, the spring lands exactly on its
/// target and stops (`rest_t` and `rest_v` are the default values left in the
/// target and velocity); otherwise it moves to `p` with velocity `v`.
pub open spec fn once_step<T, V>(
    s: SpringState<T, V>,
    p: T,
    v: V,
    settled: bool,
    rest_t: T,
    rest_v: V,
) -> SpringState<T, V> {
    if settled {
        SpringState { current: s.target, target: rest_t, velocity: rest_v, active: false, ..s }
    } else {
        SpringState { current: p, velocity: v, ..s }
    }
}

impl<T: Default, V: Default> Spring<T, V, Once> {
    /// Sets a new target and starts moving towards it.
    pub fn set(&mut self, target: T)
        ensures
            final(self).state == once_set(old(self).state, target),
            final(self).state.target == target,
            final(self).state.active,
            final(self).state.current == old(self).state.current,
            final(self).state.velocity == old(self).state.velocity,
            final(self).state.origin == old(self).state.origin,
            final(self).state.pending == old(self).state.pending,
            final(self).advancing == old(self).advancing,
    {
        self.state.target = target;
        self.state.active = true;
    }

    /// The target while moving, the current value at rest.
    pub fn target(&self) -> (r: &T)
        ensures
            *r == once_target(self.state),
    {
        if self.state.active {
            &self.state.target
        } else {
            &self.state.current
        }
    }

    /// One frame. An inactive spring does nothing. An active one integrates
    /// one step of `clock.last_delta` milliseconds with `step`, asks `settled`
    /// whether the result has come to rest, and either lands on the target and
    /// stops, or moves and marks the clock as animating.
    pub fn update<S, D>(&mut self, clock: &mut Clock, step: S, settled: D)
        where
            S: Fn(&T, &T, &V, Option<usize>) -> (T, V),
            D: Fn(&T, &T, &V) -> bool,
        requires
            forall|a: &T, b: &T, v: &V, d: Option<usize>| call_requires(step, (a, b, v, d)),
            forall|a: &T, b: &T, v: &V| call_requires(settled, (a, b, v)),
        ensures
            !old(self).state.active ==> *final(self) == *old(self) && *final(clock) == *old(clock),
            old(self).state.active ==> exists|p: T, v: V, done: bool, rest_t: T, rest_v: V|
                {
                    &&& call_ensures(
                        step,
                        (
                            &old(self).state.current,
                            &old(self).state.target,
                            &old(self).state.velocity,
                            Some(old(clock).last_delta),
                        ),
                        (p, v),
                    )
                    &&& call_ensures(settled, (&p, &old(self).state.target, &v), done)
                    &&& done ==> call_ensures(T::default, (), rest_t)
                    &&& done ==> call_ensures(V::default, (), rest_v)
                    &&& final(self).state == once_step(old(self).state, p, v, done, rest_t, rest_v)
                    &&& final(self).advancing == old(self).advancing
                    &&& *final(clock) == if done { *old(clock) } else { marked(*old(clock)) }
                },
    {
        if !self.state.active {
            return;
        }
        let (p, v) = step(
            &self.state.current,
            &self.state.target,
            &self.state.velocity,
            Some(clock.last_delta),
        );
        let done = settled(&p, &self.state.target, &v);
        let ghost gp = p;
        let ghost gv = v;
        if done {
            let mut rest_t = T::default();
            let ghost grt = rest_t;
            core::mem::swap(&mut rest_t, &mut self.state.target);
            self.state.current = rest_t;
            let rest_v = V::default();
            let ghost grv = rest_v;
            self.state.velocity = rest_v;
            self.state.active = false;
            assert(final(self).state == once_step(old(self).state, gp, gv, done, grt, grv));
        } else {
            self.state.current = p;
            self.state.velocity = v;
            clock.animating = true;
            assert(final(self).state == once_step(old(self).state, gp, gv, done, gp, gv));
        }
    }
}

// ----------------------------------------------------------- Alternate

/// `r` is what the step function gives for `x` held at `x` with the default
/// velocity over a zero time step: the value a spring snaps to when it is
/// placed exactly at `x`.
pub open spec fn snaps_to<T, V: Default, S: Fn(&T, &T, &V, Option<usize>) -> (T, V)>(
    step: S,
    x: T,
    r: T,
) -> bool {
    exists|rv: V, w: V|
        call_ensures(V::default, (), rv) && #[trigger] call_ensures(step, (&x, &x, &rv, None::<usize>), (r, w))
}

/// The origin of an alternating spring once a pending target change has been
/// taken up: the value it was at when the change came in.
pub open spec fn alternate_origin<T, V>(s: SpringState<T, V>) -> T {
    if s.pending { s.current } else { s.origin }
}

/// The state of an alternating spring after `set(x)`.
pub open spec fn alternate_set<T, V>(s: SpringState<T, V>, x: T) -> SpringState<T, V> {
    SpringState { target: x, active: true, pending: true, ..s }
}

/// One frame of an active alternating spring, from state `s` (direction
/// `adv`) with a frame of `dt` milliseconds to state `t` (direction `tadv`):
/// `c` is where the spring starts the frame (snapped onto the old current
/// value when a target change was pending), `p` and `v` are what one step
/// from `c` towards the target gave, and `done` is whether that step settled.
pub open spec fn alternate_step<T, V: Default, S: Fn(&T, &T, &V, Option<usize>) -> (T, V), D: Fn(&T, &T, &V) -> bool>(
    step: S,
    settled: D,
    s: SpringState<T, V>,
    adv: bool,
    dt: usize,
    t: SpringState<T, V>,
    tadv: bool,
    c: T,
    p: T,
    v: V,
    done: bool,
) -> bool {
    &&& s.pending ==> snaps_to(step, s.current, c)
    &&& !s.pending ==> c == s.current
    &&& call_ensures(step, (&c, &s.target, &s.velocity, Some(dt)), (p, v))
    &&& call_ensures(settled, (&p, &s.target, &v), done)
    &&& t.active
    &&& !t.pending
    &&& done ==> {
        &&& snaps_to(step, s.target, t.current)
        &&& call_ensures(V::default, (), t.velocity)
        &&& t.origin == s.target
        &&& t.target == alternate_origin(s)
        &&& tadv == !adv
    }
    &&& !done ==> {
        &&& t.current == p
        &&& t.velocity == v
        &&& t.origin == alternate_origin(s)
        &&& t.target == s.target
        &&& tadv == adv
    }
}

impl<T: Default, V: Default> Spring<T, V, Alternate> {
    /// Sets a new far endpoint; the current value becomes the near endpoint
    /// on the next frame, and the spring heads for `target` first.
    pub fn set(&mut self, target: T)
        ensures
            final(self).state == alternate_set(old(self).state, target),
            final(self).state.target == target,
            final(self).state.active,
            final(self).state.pending,
            final(self).state.current == old(self).state.current,
            final(self).state.velocity == old(self).state.velocity,
            final(self).state.origin == old(self).state.origin,
            final(self).advancing,
    {
        self.state.target = target;
        self.state.active = true;
        self.state.pending = true;
        self.advancing = true;
    }

    /// The endpoint the spring is heading for.
    pub fn target(&self) -> (r: &T)
        ensures
            *r == self.state.target,
    {
        &self.state.target
    }

    /// One frame. An inactive spring does nothing. An active one first takes
    /// up a pending target change (the current value becomes the origin and
    /// the spring snaps onto it), then integrates one step; when that step
    /// has settled the spring snaps onto the target, its velocity is reset,
    /// the two endpoints swap and the direction flips. An active spring
    /// always marks the clock as animating.
    pub fn update<S, D>(&mut self, clock: &mut Clock, step: S, settled: D)
        where
            S: Fn(&T, &T, &V, Option<usize>) -> (T, V),
            D: Fn(&T, &T, &V) -> bool,
        requires
            forall|a: &T, b: &T, v: &V, d: Option<usize>| call_requires(step, (a, b, v, d)),
            forall|a: &T, b: &T, v: &V| call_requires(settled, (a, b, v)),
        ensures
            !old(self).state.active ==> *final(self) == *old(self) && *final(clock) == *old(clock),
            old(self).state.active ==> exists|c: T, p: T, v: V, done: bool|
                alternate_step(
                    step,
                    settled,
                    old(self).state,
                    old(self).advancing,
                    old(clock).last_delta,
                    final(self).state,
                    final(self).advancing,
                    c,
                    p,
                    v,
                    done,
                ),
            old(self).state.active ==> *final(clock) == marked(*old(clock)),
    {
        if !self.state.active {
            return;
        }
        if self.state.pending {
            let mut taken = T::default();
            core::mem::swap(&mut taken, &mut self.state.current);
            self.state.origin = taken;
            let rest_v = V::default();
            let (snapped, spare) = step(&self.state.origin, &self.state.origin, &rest_v, None);
            assert(call_ensures(step, (&self.state.origin, &self.state.origin, &rest_v, None::<usize>), (snapped, spare)));
            assert(snaps_to(step, old(self).state.current, snapped));
            self.state.current = snapped;
            self.state.pending = false;
        }
        let ghost c = self.state.current;
        let (p, v) = step(
            &self.state.current,
            &self.state.target,
            &self.state.velocity,
            Some(clock.last_delta),
        );
        let ghost gp = p;
        let ghost gv = v;
        let done = settled(&p, &self.state.target, &v);
        if done {
            let rest_v = V::default();
            let (snapped, spare) = step(&self.state.target, &self.state.target, &rest_v, None);
            assert(call_ensures(step, (&self.state.target, &self.state.target, &rest_v, None::<usize>), (snapped, spare)));
            assert(snaps_to(step, old(self).state.target, snapped));
            self.state.current = snapped;
            self.state.velocity = V::default();
            core::mem::swap(&mut self.state.origin, &mut self.state.target);
            self.advancing = !self.advancing;
        } else {
            self.state.current = p;
            self.state.velocity = v;
        }
        clock.animating = true;
        assert(call_ensures(settled, (&gp, &old(self).state.target, &gv), done));
        assert(old(self).state.pending ==> snaps_to(step, old(self).state.current, c));
        assert(alternate_step(
            step,
            settled,
            old(self).state,
            old(self).advancing,
            old(clock).last_delta,
            self.state,
            self.advancing,
            c,
            gp,
            gv,
            done,
        ));
    }
}

// ---------------------------------------------------------------- laws

/// A one-shot spring reports the target it was last given.
pub proof fn lemma_once_set_then_target<T, V>(s: SpringState<T, V>, x: T)
    ensures
        once_target(once_set(s, x)) == x,
{
}

/// A frame of a one-shot spring never changes what `target()` reports: the
/// spring either keeps heading for its target or lands exactly on it.
pub proof fn lemma_once_step_keeps_target<T, V>(
    s: SpringState<T, V>,
    p: T,
    v: V,
    done: bool,
    rest_t: T,
    rest_v: V,
)
    requires
        s.active,
    ensures
        once_target(once_step(s, p, v, done, rest_t, rest_v)) == once_target(s),
{
}

/// A one-shot spring whose step has settled rests exactly at its target.
pub proof fn lemma_once_settles_on_target<T, V>(
    s: SpringState<T, V>,
    p: T,
    v: V,
    rest_t: T,
    rest_v: V,
)
    ensures
        once_step(s, p, v, true, rest_t, rest_v).current == s.target,
        !once_step(s, p, v, true, rest_t, rest_v).active,
{
}

/// An alternating spring reports the target it was last given, and the
/// change waits for the next frame.
pub proof fn lemma_alternate_set_then_target<T, V>(s: SpringState<T, V>, x: T)
    ensures
        alternate_set(s, x).target == x,
        alternate_set(s, x).active,
        alternate_set(s, x).pending,
{
}

/// An alternating spring that settles twice in a row is heading for the same
/// endpoint, in the same direction, as before the first settle: it goes back
/// and forth between its two endpoints.
pub proof fn lemma_alternate_two_settles<T, V: Default, S: Fn(&T, &T, &V, Option<usize>) -> (T, V), D: Fn(&T, &T, &V) -> bool>(
    step: S,
    settled: D,
    s0: SpringState<T, V>,
    a0: bool,
    dt1: usize,
    s1: SpringState<T, V>,
    a1: bool,
    c1: T,
    p1: T,
    v1: V,
    dt2: usize,
    s2: SpringState<T, V>,
    a2: bool,
    c2: T,
    p2: T,
    v2: V,
)
    requires
        alternate_step(step, settled, s0, a0, dt1, s1, a1, c1, p1, v1, true),
        alternate_step(step, settled, s1, a1, dt2, s2, a2, c2, p2, v2, true),
    ensures
        s2.target == s0.target,
        s2.origin == alternate_origin(s0),
        a2 == a0,
{
}

/// Setting a one-shot spring's target changes nothing but the target and
/// starts it: it keeps its position, velocity and origin, and moves from
/// where it is.
pub proof fn lemma_once_set_keeps_motion<T, V>(s: SpringState<T, V>, x: T)
    ensures
        once_set(s, x).target == x,
        once_set(s, x).active,
        once_set(s, x).current == s.current,
        once_set(s, x).velocity == s.velocity,
        once_set(s, x).origin == s.origin,
        once_set(s, x).pending == s.pending,
{
}

/// A frame of a one-shot spring whose step did not settle moves it to the
/// position the step returned and keeps the velocity the step returned, so
/// the next frame carries the momentum; the target stays.
pub proof fn lemma_once_step_moves<T, V>(s: SpringState<T, V>, p: T, v: V, rest_t: T, rest_v: V)
    ensures
        once_step(s, p, v, false, rest_t, rest_v).current == p,
        once_step(s, p, v, false, rest_t, rest_v).velocity == v,
        once_step(s, p, v, false, rest_t, rest_v).target == s.target,
        once_step(s, p, v, false, rest_t, rest_v).active == s.active,
{
}

/// A frame of a one-shot spring whose step settled puts it exactly on its
/// target with the rest velocity, and stops it.
pub proof fn lemma_once_step_rests<T, V>(s: SpringState<T, V>, p: T, v: V, rest_t: T, rest_v: V)
    ensures
        once_step(s, p, v, true, rest_t, rest_v).current == s.target,
        once_step(s, p, v, true, rest_t, rest_v).velocity == rest_v,
        once_step(s, p, v, true, rest_t, rest_v).target == rest_t,
        !once_step(s, p, v, true, rest_t, rest_v).active,
{
}

/// Setting an alternating spring's far endpoint keeps its position,
/// velocity and origin until the next frame takes the change up.
pub proof fn lemma_alternate_set_keeps_motion<T, V>(s: SpringState<T, V>, x: T)
    ensures
        alternate_set(s, x).target == x,
        alternate_set(s, x).current == s.current,
        alternate_set(s, x).velocity == s.velocity,
        alternate_set(s, x).origin == s.origin,
{
}

/// The near endpoint an alternating spring keeps when a frame begins: the
/// position it had when a new target came in, else its old origin.
pub proof fn lemma_alternate_origin<T, V>(s: SpringState<T, V>)
    ensures
        s.pending ==> alternate_origin(s) == s.current,
        !s.pending ==> alternate_origin(s) == s.origin,
{
}

/// A frame of an alternating spring whose step did not settle moves it to
/// the position the step returned and keeps the velocity the step returned;
/// it keeps heading for the same endpoint in the same direction.
pub proof fn lemma_alternate_step_moves<T, V: Default, S: Fn(&T, &T, &V, Option<usize>) -> (T, V), D: Fn(&T, &T, &V) -> bool>(
    step: S,
    settled: D,
    s: SpringState<T, V>,
    adv: bool,
    dt: usize,
    t: SpringState<T, V>,
    tadv: bool,
    c: T,
    p: T,
    v: V,
)
    requires
        alternate_step(step, settled, s, adv, dt, t, tadv, c, p, v, false),
    ensures
        t.current == p,
        t.velocity == v,
        t.target == s.target,
        t.origin == (if s.pending { s.current } else { s.origin }),
        tadv == adv,
        t.active,
        !t.pending,
        call_ensures(step, (&c, &s.target, &s.velocity, Some(dt)), (p, v)),
{
}

/// A frame of an alternating spring whose step settled places it on the far
/// endpoint with the rest velocity, swaps the endpoints and flips the
/// direction.
pub proof fn lemma_alternate_step_turns<T, V: Default, S: Fn(&T, &T, &V, Option<usize>) -> (T, V), D: Fn(&T, &T, &V) -> bool>(
    step: S,
    settled: D,
    s: SpringState<T, V>,
    adv: bool,
    dt: usize,
    t: SpringState<T, V>,
    tadv: bool,
    c: T,
    p: T,
    v: V,
)
    requires
        alternate_step(step, settled, s, adv, dt, t, tadv, c, p, v, true),
    ensures
        snaps_to(step, s.target, t.current),
        call_ensures(V::default, (), t.velocity),
        t.origin == s.target,
        t.target == (if s.pending { s.current } else { s.origin }),
        tadv == !adv,
        t.active,
        !t.pending,
{
}

/// A one-shot spring reports its target while it moves and its position
/// once it rests.
pub proof fn lemma_once_target_reports<T, V>(s: SpringState<T, V>)
    ensures
        s.active ==> once_target(s) == s.target,
        !s.active ==> once_target(s) == s.current,
{
}

} // verus!
