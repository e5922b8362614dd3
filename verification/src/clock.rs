//! The engine's repeating timer, as far as the animation rules rely on it.

use bevy::time::Timer;
use bevy::time::TimerMode;
use std::time::Duration;
use vstd::prelude::*;

verus! {

/// The engine's `Timer`, carried as a value whose inside is not looked into.
#[verifier::external_type_specification]
#[verifier::external_body]
pub struct ExTimer(Timer);

/// The longest span a `Duration` holds, in nanoseconds: `u64::MAX` seconds and
/// 999,999,999 nanoseconds.
pub open spec fn max_duration_nanos() -> nat {
    18_446_744_073_709_551_615 * 1_000_000_000 + 999_999_999
}

/// The length of a span of time in nanoseconds.
pub uninterp spec fn duration_nanos(d: Duration) -> nat;

/// The nanoseconds a timer has counted since it last started over.
pub uninterp spec fn timer_elapsed_nanos(t: Timer) -> nat;

/// The nanoseconds after which a timer expires.
pub uninterp spec fn timer_period_nanos(t: Timer) -> nat;

/// Whether a timer expired on its latest tick.
pub uninterp spec fn timer_finished(t: Timer) -> bool;

/// Whether a timer is running, not paused, and starts over when it expires.
pub uninterp spec fn timer_repeats(t: Timer) -> bool;

/// What a running, repeating timer has counted once a tick of `delta`
/// nanoseconds is added to `elapsed`, before it starts over. The sum stops at
/// the longest span a `Duration` holds.
pub open spec fn ticked_nanos(elapsed: nat, delta: nat) -> nat {
    if elapsed + delta <= max_duration_nanos() {
        elapsed + delta
    } else {
        max_duration_nanos()
    }
}

/// `Duration::as_nanos`: the length of the span in nanoseconds.
pub assume_specification[ Duration::as_nanos ](d: &Duration) -> (n: u128)
    ensures
        n == duration_nanos(*d),
;

/// `Timer::new` with `Duration::from_millis(period_millis)` and
/// `TimerMode::Repeating`: a running timer that has counted nothing, has not
/// expired, and expires every `period_millis` milliseconds.
#[verifier::external_body]
pub(crate) fn repeating_timer(period_millis: u64) -> (t: Timer)
    ensures
        timer_repeats(t),
        timer_elapsed_nanos(t) == 0,
        timer_period_nanos(t) == period_millis * 1_000_000,
        !timer_finished(t),
{
    Timer::new(Duration::from_millis(period_millis), TimerMode::Repeating)
}

/// `Timer::tick` on a running, repeating timer with a period that is not zero
/// and fits in 64 bits of nanoseconds: the timer adds `delta` to what it has
/// counted, expires if that reaches the period, and then keeps the remainder.
/// The call does not panic.
#[verifier::external_body]
pub(crate) fn tick_timer(t: &mut Timer, delta: Duration)
    requires
        timer_repeats(*old(t)),
        0 < timer_period_nanos(*old(t)) <= u64::MAX,
    ensures
        timer_repeats(*final(t)),
        timer_period_nanos(*final(t)) == timer_period_nanos(*old(t)),
        timer_finished(*final(t)) == (ticked_nanos(
            timer_elapsed_nanos(*old(t)),
            duration_nanos(delta),
        ) >= timer_period_nanos(*old(t))),
        timer_elapsed_nanos(*final(t)) == ticked_nanos(
            timer_elapsed_nanos(*old(t)),
            duration_nanos(delta),
        ) % timer_period_nanos(*old(t)),
    no_unwind
{
    t.tick(delta);
}

/// `Timer::finished`: whether the timer expired on its latest tick.
#[verifier::external_body]
pub(crate) fn timer_has_finished(t: &Timer) -> (b: bool)
    ensures
        b == timer_finished(*t),
{
    t.finished()
}

} // verus!
