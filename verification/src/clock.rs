//! The repeating countdown that paces the animation.
//!
//! The countdown itself is the engine's `Timer`. This module gives it a
//! mathematical model, [`ClockState`], and states over that model what one
//! tick does to a repeating, running timer.

use vstd::prelude::*;
use bevy::time::Timer;
use bevy::time::TimerMode;
use std::time::Duration;

verus! {

/// What a timer holds, with all times in nanoseconds.
pub struct ClockState {
    /// The length of one cycle.
    pub period: nat,
    /// The time gone by in the current cycle.
    pub elapsed: nat,
    /// The last tick brought the elapsed time to the period or beyond it.
    pub reached: bool,
    /// How many cycles the last tick completed, as the timer counts them: in
    /// 32 bits.
    pub fired: nat,
    /// The timer repeats and is not paused.
    pub cycling: bool,
}

/// The engine's timer. Nothing of its fields is visible here: its state is
/// read through [`timer_state`].
#[verifier::external_type_specification]
#[verifier::external_body]
pub struct ExTimer(Timer);

/// The state of an engine timer: its duration, the elapsed time of its
/// stopwatch, its finished flag, its count of cycles finished in the last
/// tick, and whether it is in repeating mode and running.
pub uninterp spec fn timer_state(timer: Timer) -> ClockState;

/// The modulus of the timer's cycle counter, which has 32 bits.
pub open spec fn fired_modulus() -> nat {
    0x1_0000_0000
}

/// The state after a tick of `delta` nanoseconds on a cycling timer.
///
/// The elapsed time grows by `delta`. Where it reaches the period the tick
/// has `reached` it, and the elapsed time is reduced to what is left of the
/// current cycle; `fired` counts the cycles completed on the way, cut to 32
/// bits, so that a tick can reach the period and leave the count at zero. A
/// timer of period zero reaches it on every tick, with the largest count.
pub open spec fn ticked(s: ClockState, delta: nat) -> ClockState {
    let total = s.elapsed + delta;
    if s.period == 0 {
        ClockState { period: s.period, elapsed: 0, reached: true, fired: 0xffff_ffff, cycling: s.cycling }
    } else {
        ClockState {
            period: s.period,
            elapsed: total % s.period,
            reached: total >= s.period,
            fired: (total / s.period) % fired_modulus(),
            cycling: s.cycling,
        }
    }
}

/// `Timer::new` with `TimerMode::Repeating` and a duration of `period`
/// nanoseconds: the new timer has that period, no elapsed time, has not
/// finished, counts no finished cycle, repeats and is not paused.
#[verifier::external_body]
pub(crate) fn new_repeating_timer(period: u64) -> (timer: Timer)
    ensures
        timer_state(timer) == (ClockState {
            period: period as nat,
            elapsed: 0,
            reached: false,
            fired: 0,
            cycling: true,
        }),
{
    Timer::new(Duration::from_nanos(period), TimerMode::Repeating)
}

/// `Timer::tick` with a delta of `delta` nanoseconds, on a repeating timer
/// that is not paused and whose duration and elapsed time each fit in 64 bits
/// of nanoseconds: the timer's state becomes [`ticked`] of its old state.
#[verifier::external_body]
pub(crate) fn tick_timer(timer: &mut Timer, delta: u64)
    requires
        timer_state(*old(timer)).cycling,
        timer_state(*old(timer)).period <= u64::MAX,
        timer_state(*old(timer)).elapsed <= u64::MAX,
    ensures
        timer_state(*final(timer)) == ticked(timer_state(*old(timer)), delta as nat),
{
    timer.tick(Duration::from_nanos(delta));
}

/// `Timer::finished`: the timer's finished flag, which a tick of a cycling
/// timer sets where the elapsed time reached the period.
#[verifier::external_body]
pub(crate) fn timer_finished(timer: &Timer) -> (finished: bool)
    ensures
        finished == timer_state(*timer).reached,
{
    timer.finished()
}

/// `Timer::just_finished`: whether the timer's count of the cycles that the
/// last tick completed is above zero.
#[verifier::external_body]
pub(crate) fn timer_just_finished(timer: &Timer) -> (finished: bool)
    ensures
        finished == (timer_state(*timer).fired > 0),
{
    timer.just_finished()
}

} // verus!
