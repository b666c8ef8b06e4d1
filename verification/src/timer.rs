//! Countdown timers. The timers are `bevy`'s; this module says what the
//! simulation relies on when it ticks and reads them, in whole nanoseconds,
//! and derives the fixed-point fractions from that.

use crate::units::SCALE;
use bevy::time::{Timer, TimerMode};
use std::time::Duration;
use vstd::prelude::*;

verus! {

/// `Timer` of `bevy`, taken as it is: nothing of what it holds is seen here
/// but through the functions named below.
#[verifier::external_type_specification]
#[verifier::external_body]
pub struct ExTimer(Timer);

/// The interval the timer counts to, in nanoseconds: what `Timer::duration`
/// reports.
pub uninterp spec fn timer_duration(t: Timer) -> nat;

/// The time counted so far, in nanoseconds: what `Timer::elapsed` reports.
pub uninterp spec fn timer_elapsed(t: Timer) -> nat;

/// What `Timer::finished` reports.
pub uninterp spec fn timer_finished(t: Timer) -> bool;

/// What `Timer::times_finished_this_tick` reports.
pub uninterp spec fn timer_times_finished(t: Timer) -> nat;

/// Whether `Timer::mode` reports `TimerMode::Repeating`.
pub uninterp spec fn timer_repeating(t: Timer) -> bool;

/// What `Timer::paused` reports.
pub uninterp spec fn timer_paused(t: Timer) -> bool;

/// The timers the simulation works with: interval and count fit in 64 bits of
/// nanoseconds and the count has not passed the interval.
pub open spec fn timer_wf(t: Timer) -> bool {
    timer_elapsed(t) <= timer_duration(t) <= u64::MAX
}

/// A timer as its constructor leaves it: nothing counted, not finished, running.
pub open spec fn timer_fresh(t: Timer, nanos: nat, repeating: bool) -> bool {
    &&& timer_duration(t) == nanos
    &&& timer_elapsed(t) == 0
    &&& !timer_finished(t)
    &&& timer_times_finished(t) == 0
    &&& timer_repeating(t) == repeating
    &&& !timer_paused(t)
}

/// What one call of `Timer::tick` with `delta` nanoseconds makes of `before`.
pub open spec fn timer_ticked(before: Timer, after: Timer, delta: nat) -> bool {
    let total = timer_elapsed(before) + delta;
    let interval = timer_duration(before);
    &&& timer_duration(after) == interval
    &&& timer_repeating(after) == timer_repeating(before)
    &&& timer_paused(after) == timer_paused(before)
    &&& if timer_paused(before) {
        &&& timer_elapsed(after) == timer_elapsed(before)
        &&& timer_times_finished(after) == 0
        &&& timer_finished(after) == (!timer_repeating(before) && timer_finished(before))
    } else if !timer_repeating(before) && timer_finished(before) {
        &&& timer_elapsed(after) == timer_elapsed(before)
        &&& timer_times_finished(after) == 0
        &&& timer_finished(after)
    } else if total < interval {
        &&& timer_elapsed(after) == total
        &&& timer_times_finished(after) == 0
        &&& !timer_finished(after)
    } else if !timer_repeating(before) {
        &&& timer_elapsed(after) == interval
        &&& timer_times_finished(after) == 1
        &&& timer_finished(after)
    } else if interval == 0 {
        &&& timer_elapsed(after) == 0
        &&& timer_times_finished(after) == u32::MAX
        &&& timer_finished(after)
    } else {
        &&& timer_elapsed(after) == total % interval
        &&& timer_times_finished(after) == (total / interval) % 0x1_0000_0000
        &&& timer_finished(after)
    }
}

/// The part of the interval that has elapsed, in billionths; a timer with no
/// interval counts as all elapsed.
pub open spec fn timer_fraction(t: Timer) -> int {
    if timer_duration(t) == 0 {
        SCALE as int
    } else {
        (timer_elapsed(t) * SCALE) / (timer_duration(t) as int)
    }
}

/// The part of the interval still to come, in billionths.
pub open spec fn timer_fraction_remaining(t: Timer) -> int {
    SCALE - timer_fraction(t)
}

/// `Timer::finished` of `bevy`: reads the finished flag.
pub assume_specification[ Timer::finished ](t: &Timer) -> (b: bool)
    ensures
        b == timer_finished(*t),
;

/// `Timer::just_finished` of `bevy`: true when the last tick completed the
/// interval at least once.
pub assume_specification[ Timer::just_finished ](t: &Timer) -> (b: bool)
    ensures
        b == (timer_times_finished(*t) > 0),
;

/// `Timer::reset` of `bevy`: clears the count and both finished marks and
/// keeps interval, mode and pause.
pub assume_specification[ Timer::reset ](t: &mut Timer)
    ensures
        timer_elapsed(*final(t)) == 0,
        !timer_finished(*final(t)),
        timer_times_finished(*final(t)) == 0,
        timer_duration(*final(t)) == timer_duration(*old(t)),
        timer_repeating(*final(t)) == timer_repeating(*old(t)),
        timer_paused(*final(t)) == timer_paused(*old(t)),
;

/// `Timer::new` of `bevy` with `TimerMode::Once`: a fresh timer over `nanos`
/// nanoseconds that finishes once and then stays finished.
#[verifier::external_body]
pub(crate) fn once_timer(nanos: u64) -> (t: Timer)
    ensures
        timer_fresh(t, nanos as nat, false),
{
    Timer::new(Duration::from_nanos(nanos), TimerMode::Once)
}

/// `Timer::new` of `bevy` with `TimerMode::Repeating`: a fresh timer over
/// `nanos` nanoseconds that starts over each time it finishes.
#[verifier::external_body]
pub(crate) fn repeating_timer(nanos: u64) -> (t: Timer)
    ensures
        timer_fresh(t, nanos as nat, true),
{
    Timer::new(Duration::from_nanos(nanos), TimerMode::Repeating)
}

/// `Timer::tick` of `bevy`, with the delta given in nanoseconds. A paused
/// timer and a finished one-shot timer do not count. Otherwise the delta is
/// added; on reaching the interval a one-shot timer stops there, and a
/// repeating timer keeps the remainder and records how often it came round
/// (as 32 bits). The bound on the timer keeps the sum inside a `Duration` and
/// the remainder inside the 64 bits it is stored through.
#[verifier::external_body]
pub(crate) fn tick(t: &mut Timer, delta_nanos: u64)
    requires
        timer_wf(*old(t)),
    ensures
        timer_ticked(*old(t), *final(t), delta_nanos as nat),
{
    t.tick(Duration::from_nanos(delta_nanos));
}

/// `Timer::elapsed` of `bevy`, read in nanoseconds.
#[verifier::external_body]
pub(crate) fn elapsed_nanos(t: &Timer) -> (n: u128)
    ensures
        n == timer_elapsed(*t),
{
    t.elapsed().as_nanos()
}

/// `Timer::duration` of `bevy`, read in nanoseconds.
#[verifier::external_body]
pub(crate) fn duration_nanos(t: &Timer) -> (n: u128)
    ensures
        n == timer_duration(*t),
{
    t.duration().as_nanos()
}

/// Whether a timer is within the bounds the simulation works with. A timer
/// made here is, and stays so; one that comes from elsewhere is to be tested
/// before it is handed to the simulation.
pub fn within_bounds(t: &Timer) -> (ok: bool)
    ensures
        ok == timer_wf(*t),
{
    let elapsed: u128 = elapsed_nanos(t);
    let interval: u128 = duration_nanos(t);
    elapsed <= interval && interval <= u64::MAX as u128
}

/// The elapsed part of the interval in billionths, between nothing and all.
pub fn fraction(t: &Timer) -> (f: i64)
    requires
        timer_wf(*t),
    ensures
        f == timer_fraction(*t),
        0 <= f <= SCALE,
{
    let elapsed: u128 = elapsed_nanos(t);
    let interval: u128 = duration_nanos(t);
    if interval == 0 {
        SCALE
    } else {
        assert(elapsed * 1_000_000_000 <= interval * 1_000_000_000) by (nonlinear_arith)
            requires
                elapsed <= interval,
        ;
        let part: u128 = (elapsed * 1_000_000_000) / interval;
        assert(part <= 1_000_000_000) by (nonlinear_arith)
            requires
                part == (elapsed * 1_000_000_000) / (interval as int),
                elapsed * 1_000_000_000 <= interval * 1_000_000_000,
                interval > 0,
        ;
        part as i64
    }
}

/// The part of the interval still to come in billionths.
pub fn fraction_remaining(t: &Timer) -> (f: i64)
    requires
        timer_wf(*t),
    ensures
        f == timer_fraction_remaining(*t),
        0 <= f <= SCALE,
{
    SCALE - fraction(t)
}

/// Runs a timer for one frame and says whether it completed its interval in
/// that frame. A one-shot timer says so once, in the frame in which it runs
/// out, and never again until it is reset.
pub fn tick_just_finished(t: &mut Timer, delta_nanos: u64) -> (just_finished: bool)
    requires
        timer_wf(*old(t)),
    ensures
        timer_wf(*final(t)),
        timer_ticked(*old(t), *final(t), delta_nanos as nat),
        just_finished == (timer_times_finished(*final(t)) > 0),
{
    tick(t, delta_nanos);
    proof {
        lemma_tick_keeps_wf(*old(t), *t, delta_nanos as nat);
    }
    t.just_finished()
}

/// A one-shot timer that has run out does not complete its interval again,
/// however long it is ticked on.
pub proof fn lemma_spent_timer_stays_silent(before: Timer, after: Timer, delta: nat)
    requires
        timer_ticked(before, after, delta),
        !timer_repeating(before),
        timer_finished(before),
    ensures
        timer_times_finished(after) == 0,
        timer_finished(after),
        !timer_repeating(after),
{
}

/// Ticking keeps a timer within the bounds the simulation works with.
pub proof fn lemma_tick_keeps_wf(before: Timer, after: Timer, delta: nat)
    requires
        timer_wf(before),
        timer_ticked(before, after, delta),
    ensures
        timer_wf(after),
{
    let total = timer_elapsed(before) + delta;
    let interval = timer_duration(before);
    if interval > 0 {
        assert((total as int) % (interval as int) < interval) by (nonlinear_arith)
            requires
                interval > 0,
        ;
    }
}

} // verus!
