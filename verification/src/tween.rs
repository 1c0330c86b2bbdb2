//! Tweens: animations that run from a start value to a target over a fixed
//! duration. A duration is a fraction of milliseconds, `duration / scale`,
//! so that any finite duration is held exactly. The easing and interpolation
//! between two values are supplied by the caller as a closure that receives
//! the position within the cycle as the fraction `phase / duration`; this
//! module holds the state machine and the timing.

use vstd::prelude::*;
use crate::clock::{marked, Clock};
use crate::mode::{Cycle, Mode};
use core::marker::PhantomData;

verus! {

/// The state of a tween. It lasts `duration / scale` milliseconds; neither
/// is zero.
pub struct TweenState<T> {
    pub current: T,
    pub start: T,
    pub target: T,
    pub started_at: Option<usize>,
    pub pending: bool,
    pub duration: u64,
    pub scale: u64,
}

/// The duration a tween keeps for a requested duration: the request, or the
/// smallest positive duration when zero was asked for (with it every phase
/// is zero, as with a duration too short to measure).
pub open spec fn clamped_duration(duration: u64) -> u64 {
    if duration == 0 { 1 } else { duration }
}

impl<T> TweenState<T> {
    /// Well-formed: the duration is positive.
    pub open spec fn wf(self) -> bool {
        self.duration > 0 && self.scale > 0
    }
}

impl<T: Default> TweenState<T> {
    /// A tween resting at `initial` that has not been started; start and
    /// target hold their default values.
    pub fn new(initial: T, duration: u64, scale: u64) -> (s: Self)
        requires
            scale > 0,
        ensures
            s.wf(),
            s.current == initial,
            call_ensures(T::default, (), s.start),
            call_ensures(T::default, (), s.target),
            s.started_at is None,
            !s.pending,
            s.duration == clamped_duration(duration),
            s.scale == scale,
    {
        let start = T::default();
        let target = T::default();
        TweenState {
            current: initial,
            start,
            target,
            started_at: None,
            pending: false,
            duration: if duration == 0 { 1 } else { duration },
            scale,
        }
    }
}

/// A tween in mode `M`.
pub struct Tween<T, M: Mode> {
    pub state: TweenState<T>,
    pub mode: PhantomData<M>,
}

impl<T: Default, M: Mode> Tween<T, M> {
    /// A tween resting at `initial` that lasts `duration / scale`
    /// milliseconds.
    pub fn new(initial: T, duration: u64, scale: u64) -> (s: Self)
        requires
            scale > 0,
        ensures
            s.state.wf(),
            s.state.current == initial,
            call_ensures(T::default, (), s.state.start),
            call_ensures(T::default, (), s.state.target),
            s.state.started_at is None,
            !s.state.pending,
            s.state.duration == clamped_duration(duration),
            s.state.scale == scale,
    {
        Tween { state: TweenState::new(initial, duration, scale), mode: PhantomData }
    }

    /// The current value.
    pub fn get(&self) -> (r: &T)
        ensures
            *r == self.state.current,
    {
        &self.state.current
    }

    /// The value the tween is heading for.
    pub fn target(&self) -> (r: &T)
        ensures
            *r == self.state.target,
    {
        &self.state.target
    }
}

/// Milliseconds from `started` to `now`, or zero when `now` is earlier.
pub open spec fn elapsed(now: usize, started: usize) -> int {
    if now >= started { now - started } else { 0 }
}

/// Position within the cycle at time `now` of a cycling tween started at
/// `started` that lasts `duration / scale` milliseconds, as a numerator over
/// `duration`: the elapsed time modulo the duration is `phase / scale`
/// milliseconds, so the fraction of the cycle is `phase / duration`.
pub open spec fn cycle_phase(now: usize, started: usize, duration: u64, scale: u64) -> int {
    (elapsed(now, started) * scale) % (duration as int)
}

/// The state of a cycling tween after `set(x)` at frame time `now`.
pub open spec fn cycle_set<T>(s: TweenState<T>, x: T, now: usize) -> TweenState<T> {
    TweenState { target: x, started_at: Some(now), pending: true, ..s }
}

impl<T: Default> Tween<T, Cycle> {
    /// Sets a new target; the cycle restarts at the current frame, from the
    /// value the tween has when it next updates.
    pub fn set(&mut self, target: T, clock: &Clock)
        ensures
            final(self).state == cycle_set(old(self).state, target, clock.frame_time),
            final(self).state.target == target,
            final(self).state.started_at == Some(clock.frame_time),
            final(self).state.pending,
            final(self).state.current == old(self).state.current,
            final(self).state.start == old(self).state.start,
            final(self).state.duration == old(self).state.duration,
            final(self).state.scale == old(self).state.scale,
    {
        self.state.target = target;
        self.state.started_at = Some(clock.frame_time);
        self.state.pending = true;
    }

    /// One frame. A pending target change is taken up first: the current
    /// value becomes the start (and the current value is left at its default
    /// until sampled). A started tween then samples `sample(start, target,
    /// phase, duration)`, where `phase / duration` is the fraction of the
    /// cycle reached (the time since the start modulo the duration, over the
    /// duration), and marks the clock as animating. A tween that was never
    /// started keeps its value and leaves the clock alone.
    pub fn update<S>(&mut self, clock: &mut Clock, sample: S)
        where
            S: Fn(&T, &T, u64, u64) -> T,
        requires
            old(self).state.wf(),
            forall|a: &T, b: &T, n: u64, d: u64| call_requires(sample, (a, b, n, d)),
        ensures
            final(self).state.wf(),
            final(self).state.start == if old(self).state.pending {
                old(self).state.current
            } else {
                old(self).state.start
            },
            !final(self).state.pending,
            final(self).state.target == old(self).state.target,
            final(self).state.started_at == old(self).state.started_at,
            final(self).state.duration == old(self).state.duration,
            final(self).state.scale == old(self).state.scale,
            match old(self).state.started_at {
                None => {
                    &&& !old(self).state.pending ==> final(self).state.current == old(self).state.current
                    &&& old(self).state.pending ==> call_ensures(T::default, (), final(self).state.current)
                    &&& *final(clock) == *old(clock)
                },
                Some(started) => {
                    &&& call_ensures(
                        sample,
                        (
                            &final(self).state.start,
                            &final(self).state.target,
                            cycle_phase(
                                old(clock).frame_time,
                                started,
                                old(self).state.duration,
                                old(self).state.scale,
                            ) as u64,
                            old(self).state.duration,
                        ),
                        final(self).state.current,
                    )
                    &&& *final(clock) == marked(*old(clock))
                },
            },
    {
        if self.state.pending {
            let mut taken = T::default();
            core::mem::swap(&mut taken, &mut self.state.current);
            self.state.start = taken;
            self.state.pending = false;
        }
        if let Some(started) = self.state.started_at {
            let elapsed = clock.frame_time.saturating_sub(started);
            let e = elapsed as u128;
            let k = self.state.scale as u128;
            assert(e * k <= u128::MAX) by (nonlinear_arith)
                requires
                    e <= u64::MAX,
                    k <= u64::MAX,
            ;
            let phase = ((e * k) % (self.state.duration as u128)) as u64;
            self.state.current = sample(&self.state.start, &self.state.target, phase, self.state.duration);
            clock.animating = true;
        }
    }
}

// ---------------------------------------------------------------- laws

/// The position handed to the sampler lies within the cycle: at least zero
/// and below the duration.
pub proof fn lemma_cycle_phase_in_range(now: usize, started: usize, duration: u64, scale: u64)
    requires
        duration > 0,
    ensures
        0 <= cycle_phase(now, started, duration, scale) < duration,
{
}

/// A cycling tween repeats itself: `p` milliseconds later, where `p` is a
/// whole number of cycles (`p * scale` a multiple of `duration`; `p =
/// duration` always is), it samples the same position again.
pub proof fn lemma_cycle_is_periodic(now: usize, started: usize, duration: u64, scale: u64, p: usize)
    requires
        duration > 0,
        started <= now,
        now + p <= usize::MAX,
        (p * scale) % (duration as int) == 0,
    ensures
        cycle_phase((now + p) as usize, started, duration, scale) == cycle_phase(
            now,
            started,
            duration,
            scale,
        ),
{
    let e = now - started;
    let d = duration as int;
    assert((e + p) * scale == e * scale + p * scale) by (nonlinear_arith);
    vstd::arithmetic::div_mod::lemma_add_mod_noop(e * scale, p * scale, d);
    vstd::arithmetic::div_mod::lemma_mod_twice(e * scale, d);
}

/// One duration's numerator in milliseconds is always a whole number of
/// cycles.
pub proof fn lemma_duration_is_whole_cycles(duration: u64, scale: u64)
    requires
        duration > 0,
    ensures
        (duration * scale) % (duration as int) == 0,
{
    vstd::arithmetic::div_mod::lemma_mod_multiples_basic(scale as int, duration as int);
    assert(duration * scale == scale * duration) by (nonlinear_arith);
}

/// A cycling tween that has been set restarts at the frame of the call: the
/// first update samples position zero when the clock has not moved.
pub proof fn lemma_cycle_restarts_at_set<T>(s: TweenState<T>, x: T, now: usize)
    requires
        s.wf(),
    ensures
        cycle_set(s, x, now).target == x,
        cycle_set(s, x, now).started_at == Some(now),
        cycle_phase(now, now, cycle_set(s, x, now).duration, cycle_set(s, x, now).scale) == 0,
{
    assert(0 * s.scale == 0) by (nonlinear_arith);
    vstd::arithmetic::div_mod::lemma_small_mod(0, s.duration as nat);
}

/// Setting a cycling tween's target keeps its current value, start and
/// duration; it records the frame of the call and waits for the next update.
pub proof fn lemma_cycle_set_keeps_value<T>(s: TweenState<T>, x: T, now: usize)
    ensures
        cycle_set(s, x, now).target == x,
        cycle_set(s, x, now).started_at == Some(now),
        cycle_set(s, x, now).pending,
        cycle_set(s, x, now).current == s.current,
        cycle_set(s, x, now).start == s.start,
        cycle_set(s, x, now).duration == s.duration,
        cycle_set(s, x, now).scale == s.scale,
{
}

/// With a whole number of milliseconds as duration (`scale` one), the phase
/// is the time since the start modulo the duration; before the start (a
/// clock that wrapped) the phase is zero.
pub proof fn lemma_cycle_phase_whole_millis(now: usize, started: usize, duration: u64)
    requires
        duration > 0,
    ensures
        started <= now ==> cycle_phase(now, started, duration, 1) == (now - started) % (duration as int),
        now < started ==> cycle_phase(now, started, duration, 1) == 0,
{
    vstd::arithmetic::div_mod::lemma_small_mod(0, duration as nat);
}

/// The phase is the time since the start, scaled, modulo the duration:
/// within the first cycle it is the scaled elapsed time itself.
pub proof fn lemma_cycle_phase_first_cycle(now: usize, started: usize, duration: u64, scale: u64)
    requires
        started <= now,
        (now - started) * scale < duration,
    ensures
        cycle_phase(now, started, duration, scale) == (now - started) * scale,
{
    assert((now - started) * scale >= 0) by (nonlinear_arith)
        requires
            now >= started,
    ;
    vstd::arithmetic::div_mod::lemma_small_mod(((now - started) * scale) as nat, duration as nat);
}

/// A positive duration is kept as asked; a zero duration samples the start
/// of the cycle at every frame.
pub proof fn lemma_zero_duration_stays_at_start(now: usize, started: usize, duration: u64, scale: u64)
    ensures
        duration > 0 ==> clamped_duration(duration) == duration,
        cycle_phase(now, started, clamped_duration(0), scale) == 0,
{
    let x = elapsed(now, started) * scale;
    vstd::arithmetic::div_mod::lemma_fundamental_div_mod_converse(x, 1, x, 0);
}

} // verus!
