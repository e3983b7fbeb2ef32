//! The frame cursor: which frame of the sprite sheet is shown, and how a
//! repeating timer moves it through a sub-range of the sheet.

use vstd::prelude::*;
use vstd::arithmetic::div_mod::lemma_basic_div;
use vstd::arithmetic::div_mod::lemma_fundamental_div_mod;
use vstd::arithmetic::div_mod::lemma_fundamental_div_mod_converse;
use vstd::arithmetic::div_mod::lemma_mod_bound;
use vstd::arithmetic::div_mod::lemma_small_mod;
use bevy::time::Timer;
use crate::clock::ClockState;
use crate::clock::new_repeating_timer;
use crate::clock::tick_timer;
use crate::clock::ticked;
use crate::clock::timer_finished;
use crate::clock::timer_just_finished;
use crate::clock::timer_state;

verus! {

/// The frames of one animation: the indices `first..=last` of a larger sheet.
#[derive(Clone, Copy, Debug, PartialEq, Eq, Structural)]
pub struct AnimationIndices {
    pub first: usize,
    pub last: usize,
}

impl AnimationIndices {
    /// The range is not empty.
    pub open spec fn wf(&self) -> bool {
        self.first <= self.last
    }

    /// `index` is one of the frames of the animation.
    pub open spec fn contains(&self, index: int) -> bool {
        self.first <= index <= self.last
    }

    /// The frame that follows `index`: the first frame after the last one,
    /// else the next index of the sheet.
    pub open spec fn successor(&self, index: int) -> int {
        if index == self.last {
            self.first as int
        } else {
            index + 1
        }
    }

    /// The frame shown after one tick from `index`, where `reached` says
    /// whether the tick reached the timer's period.
    pub open spec fn step(&self, index: int, reached: bool) -> int {
        if reached {
            self.successor(index)
        } else {
            index
        }
    }

    /// The range `first..=last`, or `None` where `first` lies behind `last`.
    pub fn new(first: usize, last: usize) -> (made: Option<AnimationIndices>)
        ensures
            made.is_some() <==> first <= last,
            made.is_some() ==> made.unwrap() == (AnimationIndices { first, last }),
    {
        if first <= last {
            Some(AnimationIndices { first, last })
        } else {
            None
        }
    }

    /// Whether `index` is one of the frames of the animation.
    pub fn holds(&self, index: usize) -> (inside: bool)
        ensures
            inside == self.contains(index as int),
    {
        self.first <= index && index <= self.last
    }

    /// The frame that follows `index`, wrapping from `last` to `first`.
    ///
    /// An index inside a well-formed range stays inside it.
    pub fn next_index(&self, index: usize) -> (next: usize)
        requires
            index == self.last || index < usize::MAX,
        ensures
            next == self.successor(index as int),
            self.wf() && self.contains(index as int) ==> self.contains(next as int),
    {
        if index == self.last {
            self.first
        } else {
            index + 1
        }
    }

    /// The frame to show after a tick, where `finished` says whether the tick
    /// reached the timer's period.
    pub fn advance(&self, index: usize, finished: bool) -> (next: usize)
        requires
            index == self.last || index < usize::MAX,
        ensures
            next == self.step(index as int, finished),
            self.wf() && self.contains(index as int) ==> self.contains(next as int),
    {
        if finished {
            self.next_index(index)
        } else {
            index
        }
    }
}

/// The repeating timer of one animated sprite.
pub struct AnimationTimer {
    timer: Timer,
}

impl View for AnimationTimer {
    type V = ClockState;

    closed spec fn view(&self) -> ClockState {
        timer_state(self.timer)
    }
}

impl AnimationTimer {
    /// The timer repeats and runs, its period fits in 64 bits of nanoseconds,
    /// and the elapsed time lies inside the current cycle.
    pub open spec fn wf(&self) -> bool {
        &&& self@.cycling
        &&& self@.period <= u64::MAX
        &&& (self@.elapsed == 0 || self@.elapsed < self@.period)
    }

    /// A timer at the start of its first cycle, with a period of `period`
    /// nanoseconds.
    pub fn new(period: u64) -> (made: AnimationTimer)
        ensures
            made.wf(),
            made@ == (ClockState {
                period: period as nat,
                elapsed: 0,
                reached: false,
                fired: 0,
                cycling: true,
            }),
    {
        AnimationTimer { timer: new_repeating_timer(period) }
    }

    /// Advances the timer by `delta` nanoseconds.
    pub fn tick(&mut self, delta: u64)
        requires
            old(self).wf(),
        ensures
            final(self).wf(),
            final(self)@ == ticked(old(self)@, delta as nat),
    {
        proof {
            lemma_ticked_inside(self@, delta as nat);
        }
        tick_timer(&mut self.timer, delta);
    }

    /// Whether the last tick reached the period: the signal that moves the
    /// frame.
    pub fn finished(&self) -> (finished: bool)
        ensures
            finished == self@.reached,
    {
        timer_finished(&self.timer)
    }

    /// Whether the timer's count of the cycles that the last tick completed
    /// is above zero. The count has 32 bits: after a tick that completed a
    /// multiple of 2^32 cycles it is zero, though the tick reached the period.
    pub fn just_finished(&self) -> (counted: bool)
        ensures
            counted == (self@.fired > 0),
    {
        timer_just_finished(&self.timer)
    }
}

/// After a tick the elapsed time lies inside the current cycle.
pub proof fn lemma_ticked_inside(s: ClockState, delta: nat)
    ensures
        ticked(s, delta).elapsed == 0 || ticked(s, delta).elapsed < s.period,
        ticked(s, delta).period == s.period,
        ticked(s, delta).cycling == s.cycling,
{
    if s.period > 0 {
        lemma_mod_bound((s.elapsed + delta) as int, s.period as int);
    }
}

/// What a tick reaches: the period, exactly where the elapsed time and the
/// delta together come to it.
pub proof fn lemma_tick_reaches_period(s: ClockState, delta: nat)
    ensures
        ticked(s, delta).reached == (s.elapsed + delta >= s.period),
{
}

/// A tick that does not reach the end of the current cycle completes no
/// cycle: the elapsed time grows by the delta and nothing fires.
pub proof fn lemma_short_tick_is_silent(s: ClockState, delta: nat)
    requires
        s.elapsed + delta < s.period,
    ensures
        !ticked(s, delta).reached,
        ticked(s, delta).fired == 0,
        ticked(s, delta).elapsed == s.elapsed + delta,
{
    lemma_basic_div((s.elapsed + delta) as int, s.period as int);
    lemma_small_mod(s.elapsed + delta, s.period);
}

/// The clock and the frame after the ticks `deltas`, taken in order from the
/// clock state `clock` and the frame `index`.
pub open spec fn run(indices: AnimationIndices, clock: ClockState, index: int, deltas: Seq<nat>) -> (
    ClockState,
    int,
)
    decreases deltas.len(),
{
    if deltas.len() == 0 {
        (clock, index)
    } else {
        let before = run(indices, clock, index, deltas.drop_last());
        let after = ticked(before.0, deltas.last());
        (after, indices.step(before.1, after.reached))
    }
}

/// The frame never leaves the range: from a frame inside a well-formed range,
/// the frame after any sequence of ticks, and after each of its prefixes, is
/// inside the range.
pub proof fn lemma_frame_stays_in_range(
    indices: AnimationIndices,
    clock: ClockState,
    index: int,
    deltas: Seq<nat>,
)
    requires
        indices.wf(),
        indices.contains(index),
    ensures
        indices.contains(run(indices, clock, index, deltas).1),
        forall|n: int|
            0 <= n <= deltas.len() ==> indices.contains(
                #[trigger] run(indices, clock, index, deltas.take(n)).1,
            ),
    decreases deltas.len(),
{
    if deltas.len() > 0 {
        lemma_frame_stays_in_range(indices, clock, index, deltas.drop_last());
    }
    assert forall|n: int| 0 <= n <= deltas.len() implies indices.contains(
        #[trigger] run(indices, clock, index, deltas.take(n)).1,
    ) by {
        if n == deltas.len() {
            assert(deltas.take(n) =~= deltas);
        } else {
            assert(deltas.take(n) =~= deltas.drop_last().take(n));
        }
    }
}

/// Ticks that stay short of the period change no frame: where the elapsed
/// time and all the deltas together are less than the period, the frame after
/// them is the frame before them.
pub proof fn lemma_short_ticks_keep_frame(
    indices: AnimationIndices,
    clock: ClockState,
    index: int,
    deltas: Seq<nat>,
)
    requires
        clock.elapsed + total(deltas) < clock.period,
    ensures
        run(indices, clock, index, deltas).1 == index,
        run(indices, clock, index, deltas).0.elapsed == clock.elapsed + total(deltas),
        run(indices, clock, index, deltas).0.period == clock.period,
    decreases deltas.len(),
{
    if deltas.len() > 0 {
        lemma_short_ticks_keep_frame(indices, clock, index, deltas.drop_last());
        let before = run(indices, clock, index, deltas.drop_last());
        lemma_short_tick_is_silent(before.0, deltas.last());
    }
}

/// The sum of the deltas.
pub open spec fn total(deltas: Seq<nat>) -> nat
    decreases deltas.len(),
{
    if deltas.len() == 0 {
        0
    } else {
        total(deltas.drop_last()) + deltas.last()
    }
}

/// The frame after `count` ticks that reached the timer's period.
pub open spec fn after_advances(indices: AnimationIndices, index: int, count: nat) -> int
    decreases count,
{
    if count == 0 {
        index
    } else {
        indices.successor(after_advances(indices, index, (count - 1) as nat))
    }
}

/// The frames form a ring: from a frame inside a well-formed range, `count`
/// ticks that reached the period lead to the frame that lies `count` places
/// further, counted round the range.
pub proof fn lemma_frames_form_a_ring(indices: AnimationIndices, index: int, count: nat)
    requires
        indices.wf(),
        indices.contains(index),
    ensures
        after_advances(indices, index, count) == indices.first + (index - indices.first + count) % (
        indices.last - indices.first + 1),
    decreases count,
{
    let len = indices.last - indices.first + 1;
    let offset = index - indices.first;
    if count == 0 {
        lemma_small_mod(offset as nat, len as nat);
    } else {
        lemma_frames_form_a_ring(indices, index, (count - 1) as nat);
        let before = offset + count - 1;
        lemma_mod_bound(before, len);
        lemma_fundamental_div_mod(before, len);
        let quotient = before / len;
        if before % len == len - 1 {
            assert((quotient + 1) * len == len * quotient + len) by (nonlinear_arith);
            lemma_fundamental_div_mod_converse(before + 1, len, before / len + 1, 0);
        } else {
            assert(quotient * len == len * quotient) by (nonlinear_arith);
            lemma_fundamental_div_mod_converse(before + 1, len, before / len, before % len + 1);
        }
    }
}

/// One frame of the animation driver: advances the timer by `delta`
/// nanoseconds and, where that brings the elapsed time to the period or
/// beyond it, moves `index` to the frame that follows it. However many
/// periods one tick covers, the frame moves by one.
pub fn animate_sprite(indices: &AnimationIndices, timer: &mut AnimationTimer, index: &mut usize, delta: u64)
    requires
        old(timer).wf(),
        *old(index) == indices.last || *old(index) < usize::MAX,
    ensures
        final(timer).wf(),
        final(timer)@ == ticked(old(timer)@, delta as nat),
        *final(index) == indices.step(
            *old(index) as int,
            old(timer)@.elapsed + delta >= old(timer)@.period,
        ),
        indices.wf() && indices.contains(*old(index) as int) ==> indices.contains(*final(index) as int),
        old(timer)@.elapsed + delta < old(timer)@.period ==> *final(index) == *old(index),
{
    proof {
        if timer@.elapsed + delta < timer@.period {
            lemma_short_tick_is_silent(timer@, delta as nat);
        }
    }
    timer.tick(delta);
    let finished = timer.finished();
    *index = indices.advance(*index, finished);
}

/// An animated sprite's cursor: the range it cycles through, its timer and
/// the frame it shows.
pub struct SpriteAnimation {
    indices: AnimationIndices,
    timer: AnimationTimer,
    index: usize,
}

impl SpriteAnimation {
    /// The range is not empty, the timer is well formed and the frame shown
    /// is one of the range.
    pub closed spec fn wf(&self) -> bool {
        &&& self.indices.wf()
        &&& self.timer.wf()
        &&& self.indices.contains(self.index as int)
    }

    /// The range the animation cycles through.
    pub closed spec fn range(&self) -> AnimationIndices {
        self.indices
    }

    /// The state of the timer.
    pub closed spec fn clock(&self) -> ClockState {
        self.timer@
    }

    /// The frame shown.
    pub closed spec fn frame(&self) -> int {
        self.index as int
    }

    /// What well-formedness says of the frame: it lies in the range.
    pub proof fn lemma_frame_in_range(&self)
        requires
            self.wf(),
        ensures
            self.range().wf(),
            self.range().contains(self.frame()),
    {
    }

    /// An animation that shows the first frame of `indices` and whose timer
    /// starts its first cycle of `period` nanoseconds; `None` where the range
    /// is empty.
    pub fn start(indices: AnimationIndices, period: u64) -> (made: Option<SpriteAnimation>)
        ensures
            made.is_some() <==> indices.wf(),
            made.is_some() ==> {
                &&& made.unwrap().wf()
                &&& made.unwrap().range() == indices
                &&& made.unwrap().frame() == indices.first
                &&& made.unwrap().clock() == (ClockState {
                    period: period as nat,
                    elapsed: 0,
                    reached: false,
                    fired: 0,
                    cycling: true,
                })
            },
    {
        if indices.first <= indices.last {
            Some(SpriteAnimation { indices, timer: AnimationTimer::new(period), index: indices.first })
        } else {
            None
        }
    }

    /// The range the animation cycles through.
    pub fn indices(&self) -> (indices: AnimationIndices)
        ensures
            indices == self.range(),
    {
        self.indices
    }

    /// The frame shown.
    pub fn index(&self) -> (index: usize)
        ensures
            index == self.frame(),
    {
        self.index
    }

    /// Advances the animation by `delta` nanoseconds and returns the frame to
    /// show: the frame after the one shown where the tick reached the timer's
    /// period, else the one shown.
    pub fn tick(&mut self, delta: u64) -> (index: usize)
        requires
            old(self).wf(),
        ensures
            final(self).wf(),
            final(self).range() == old(self).range(),
            final(self).clock() == ticked(old(self).clock(), delta as nat),
            final(self).frame() == old(self).range().step(
                old(self).frame(),
                old(self).clock().elapsed + delta >= old(self).clock().period,
            ),
            old(self).clock().elapsed + delta < old(self).clock().period ==> final(self).frame() == old(
                self,
            ).frame(),
            index == final(self).frame(),
    {
        animate_sprite(&self.indices, &mut self.timer, &mut self.index, delta);
        self.index
    }
}

} // verus!
