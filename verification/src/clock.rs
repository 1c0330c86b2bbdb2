//! The frame clock that every animation reads: the time of the current frame
//! in milliseconds, the length of the last frame, and whether any animation
//! asked for another frame since the last tick.

use vstd::prelude::*;

verus! {

/// The frame clock. `frame_time` wraps around like an atomic counter.
#[derive(Clone, Copy, Debug)]
pub struct Clock {
    /// Milliseconds accumulated over all ticks (wrapping).
    pub frame_time: usize,
    /// Length of the last frame in milliseconds.
    pub last_delta: usize,
    /// Set by an animation that moved since the last tick.
    pub animating: bool,
}

/// `a + b` wrapped around `usize`, the way an atomic `fetch_add` counts.
pub open spec fn wrapped_sum(a: usize, b: usize) -> usize {
    if a + b > usize::MAX {
        (a + b - usize::MAX - 1) as usize
    } else {
        (a + b) as usize
    }
}

/// The clock after a frame of `delta` milliseconds: the frame time grows by
/// `delta` (wrapping), the last delta is `delta`, and nothing has moved yet.
pub open spec fn ticked(c: Clock, delta: usize) -> Clock {
    Clock { frame_time: wrapped_sum(c.frame_time, delta), last_delta: delta, animating: false }
}

/// The clock once an animation has asked for another frame.
pub open spec fn marked(c: Clock) -> Clock {
    Clock { animating: true, ..c }
}

impl Clock {
    /// A clock at time zero with no frame elapsed and nothing animating.
    pub open spec fn new_spec() -> Clock {
        Clock { frame_time: 0, last_delta: 0, animating: false }
    }

    /// A clock at time zero with no frame elapsed and nothing animating.
    pub fn new() -> (c: Clock)
        ensures
            c == Clock::new_spec(),
    {
        Clock { frame_time: 0, last_delta: 0, animating: false }
    }

    /// Length of the last frame in milliseconds.
    pub fn last_delta(&self) -> (d: usize)
        ensures
            d == self.last_delta,
    {
        self.last_delta
    }
}

/// Advances the clock by one frame of `delta` milliseconds: the frame time
/// grows by `delta` (wrapping), the last delta becomes `delta`, and the
/// animating flag is cleared.
pub fn tick(clock: &mut Clock, delta: usize)
    ensures
        *final(clock) == ticked(*old(clock), delta),
        final(clock).last_delta == delta,
        final(clock).frame_time == wrapped_sum(old(clock).frame_time, delta),
        !final(clock).animating,
{
    clock.frame_time = clock.frame_time.wrapping_add(delta);
    clock.last_delta = delta;
    clock.animating = false;
}

/// The time of the current frame in milliseconds.
pub fn frame(clock: &Clock) -> (t: usize)
    ensures
        t == clock.frame_time,
{
    clock.frame_time
}

/// Whether some animation moved since the last tick.
pub fn is_animating(clock: &Clock) -> (b: bool)
    ensures
        b == clock.animating,
{
    clock.animating
}

/// The wrapped sum is the sum modulo the size of `usize`.
pub proof fn lemma_wrapped_sum_is_mod(a: usize, b: usize)
    ensures
        wrapped_sum(a, b) as int == (a + b) % (usize::MAX as int + 1),
{
    let m = usize::MAX as int + 1;
    if a + b > usize::MAX {
        assert(a + b - m < m);
        vstd::arithmetic::div_mod::lemma_fundamental_div_mod_converse(a + b, m, 1, a + b - m);
    } else {
        vstd::arithmetic::div_mod::lemma_small_mod((a + b) as nat, m as nat);
    }
}

/// What a call does to the clock: a `tick` of some milliseconds, an update
/// that moved an animation (and so marked the clock), or any other call,
/// which leaves the clock as it is. Every function of this crate that takes
/// the clock is one of these: `tick` is `Tick`, the `update`s are `Moved` or
/// `Still` as their contracts say, and everything else reads the clock only.
pub enum ClockEvent {
    Tick(usize),
    Moved,
    Still,
}

/// The clock after one event.
pub open spec fn apply_event(c: Clock, e: ClockEvent) -> Clock {
    match e {
        ClockEvent::Tick(d) => ticked(c, d),
        ClockEvent::Moved => marked(c),
        ClockEvent::Still => c,
    }
}

/// The clock after a sequence of events, first to last.
pub open spec fn run_events(c: Clock, es: Seq<ClockEvent>) -> Clock
    decreases es.len(),
{
    if es.len() == 0 {
        c
    } else {
        apply_event(run_events(c, es.drop_last()), es.last())
    }
}

/// The milliseconds of all the ticks among the events.
pub open spec fn ticked_total(es: Seq<ClockEvent>) -> int
    decreases es.len(),
{
    if es.len() == 0 {
        0
    } else {
        ticked_total(es.drop_last()) + match es.last() {
            ClockEvent::Tick(d) => d as int,
            _ => 0,
        }
    }
}

/// Some update moved an animation after the last tick among the events (or
/// the clock was already marked and no tick came).
pub open spec fn moved_since_last_tick(c: Clock, es: Seq<ClockEvent>) -> bool {
    ||| exists|i: int|
        0 <= i < es.len() && #[trigger] es[i] is Moved && forall|j: int|
            i < j < es.len() ==> !(#[trigger] es[j] is Tick)
    ||| c.animating && forall|j: int| 0 <= j < es.len() ==> !(#[trigger] es[j] is Tick)
}

/// After any sequence of calls, the frame time is the starting frame time
/// plus every millisecond ticked, modulo the size of `usize`; from a new
/// clock it is the sum of all ticks modulo the size of `usize`.
pub proof fn lemma_frame_counts_ticks(c: Clock, es: Seq<ClockEvent>)
    ensures
        run_events(c, es).frame_time as int == (c.frame_time + ticked_total(es)) % (usize::MAX as int
            + 1),
        c == Clock::new_spec() ==> run_events(c, es).frame_time as int == ticked_total(es) % (
        usize::MAX as int + 1),
    decreases es.len(),
{
    let m = usize::MAX as int + 1;
    if es.len() == 0 {
        vstd::arithmetic::div_mod::lemma_small_mod(c.frame_time as nat, m as nat);
    } else {
        let prev = run_events(c, es.drop_last());
        lemma_frame_counts_ticks(c, es.drop_last());
        match es.last() {
            ClockEvent::Tick(d) => {
                lemma_wrapped_sum_is_mod(prev.frame_time, d);
                vstd::arithmetic::div_mod::lemma_add_mod_noop(
                    c.frame_time + ticked_total(es.drop_last()),
                    d as int,
                    m,
                );
                vstd::arithmetic::div_mod::lemma_small_mod(d as nat, m as nat);
                vstd::arithmetic::div_mod::lemma_small_mod(prev.frame_time as nat, m as nat);
            },
            _ => {},
        }
    }
}

/// After any sequence of calls, the clock is marked as animating exactly
/// when some update moved an animation since the last tick.
pub proof fn lemma_animating_iff_moved(c: Clock, es: Seq<ClockEvent>)
    ensures
        run_events(c, es).animating == moved_since_last_tick(c, es),
    decreases es.len(),
{
    if es.len() > 0 {
        let init = es.drop_last();
        let n = es.len() - 1;
        lemma_animating_iff_moved(c, init);
        assert forall|j: int| 0 <= j < init.len() implies init[j] == es[j] by {}
        match es.last() {
            ClockEvent::Tick(_) => {
                assert(es[n] is Tick);
                assert(!moved_since_last_tick(c, es));
            },
            ClockEvent::Moved => {
                assert(es[n] is Moved);
                assert(moved_since_last_tick(c, es));
            },
            ClockEvent::Still => {
                assert(!(es[n] is Tick) && !(es[n] is Moved));
                if moved_since_last_tick(c, init) {
                    if exists|i: int|
                        0 <= i < init.len() && #[trigger] init[i] is Moved && forall|j: int|
                            i < j < init.len() ==> !(#[trigger] init[j] is Tick) {
                        let i = choose|i: int|
                            0 <= i < init.len() && #[trigger] init[i] is Moved && forall|j: int|
                                i < j < init.len() ==> !(#[trigger] init[j] is Tick);
                        assert(es[i] is Moved);
                        assert forall|j: int| i < j < es.len() implies !(#[trigger] es[j] is Tick) by {
                            if j < n {
                                assert(init[j] == es[j]);
                            }
                        }
                    } else {
                        assert forall|j: int| 0 <= j < es.len() implies !(#[trigger] es[j] is Tick) by {
                            if j < n {
                                assert(init[j] == es[j]);
                            }
                        }
                    }
                } else {
                    if moved_since_last_tick(c, es) {
                        if exists|i: int|
                            0 <= i < es.len() && #[trigger] es[i] is Moved && forall|j: int|
                                i < j < es.len() ==> !(#[trigger] es[j] is Tick) {
                            let i = choose|i: int|
                                0 <= i < es.len() && #[trigger] es[i] is Moved && forall|j: int|
                                    i < j < es.len() ==> !(#[trigger] es[j] is Tick);
                            assert(i != n);
                            assert(init[i] is Moved);
                            assert forall|j: int| i < j < init.len() implies !(#[trigger] init[j] is Tick) by {
                                assert(init[j] == es[j]);
                            }
                        } else {
                            assert forall|j: int| 0 <= j < init.len() implies !(#[trigger] init[j] is Tick) by {
                                assert(init[j] == es[j]);
                            }
                        }
                    }
                }
            },
        }
    }
}

/// One tick records exactly its own delta (zero included), adds it to the
/// frame time modulo the size of `usize`, and clears the animating flag.
pub proof fn lemma_tick_records_delta(c: Clock, d: usize)
    ensures
        ticked(c, d).last_delta == d,
        ticked(c, d).frame_time as int == (c.frame_time + d) % (usize::MAX as int + 1),
        !ticked(c, d).animating,
{
    lemma_wrapped_sum_is_mod(c.frame_time, d);
}

/// Marking the clock changes nothing but the animating flag.
pub proof fn lemma_marked_keeps_time(c: Clock)
    ensures
        marked(c).animating,
        marked(c).frame_time == c.frame_time,
        marked(c).last_delta == c.last_delta,
{
}

} // verus!
