//! The steering: what the keyboard does to the sprite in one frame.
//!
//! Positions are counted in whole units on an unbounded grid. A frame's
//! effect is a [`Motion`]; a [`SpriteState`] is the sprite on a grid of
//! 64-bit coordinates, and a [`Pose`] is the same on the unbounded one.

use vstd::prelude::*;
use bevy::input::ButtonInput;
use bevy::input::keyboard::KeyCode;
use crate::input::HeldKeys;
use crate::input::KeySample;
use crate::input::just_pressed_keys;
use crate::input::just_released_keys;
use crate::input::pressed_keys;

verus! {

/// The units that one frame with an arrow key held moves the sprite.
pub const STRIDE: i32 = 10;

/// The units that the jump key lifts the sprite while it is held.
pub const JUMP: i32 = 50;

/// What one frame does to the sprite.
#[derive(Clone, Copy, Debug, PartialEq, Eq, Structural)]
pub struct Motion {
    /// The new value of the horizontal flip, where the frame sets it.
    pub flip_x: Option<bool>,
    /// The change of the horizontal position.
    pub dx: i32,
    /// The change of the vertical position.
    pub dy: i32,
}

/// The sprite on the unbounded grid.
pub struct Pose {
    pub flip_x: bool,
    pub x: int,
    pub y: int,
}

impl Pose {
    /// The pose after `motion`.
    pub open spec fn shifted(self, motion: Motion) -> Pose {
        Pose {
            flip_x: match motion.flip_x {
                Some(flip) => flip,
                None => self.flip_x,
            },
            x: self.x + motion.dx,
            y: self.y + motion.dy,
        }
    }

    /// The pose after the frames `samples`, taken in order.
    pub open spec fn replayed(self, samples: Seq<KeySample>) -> Pose
        decreases samples.len(),
    {
        if samples.len() == 0 {
            self
        } else {
            self.replayed(samples.drop_last()).shifted(steering(samples.last()))
        }
    }
}

/// The motion of a frame with the keyboard in the state `sample`.
///
/// The right arrow turns the sprite to the right and moves it [`STRIDE`] to
/// the right; the left arrow turns it to the left and moves it [`STRIDE`] to
/// the left. With both held the moves cancel and the sprite faces left. The
/// jump key lifts the sprite by [`JUMP`] when it goes down and lowers it by
/// as much when it comes up.
pub open spec fn steering(sample: KeySample) -> Motion {
    Motion {
        flip_x: if sample.left_held {
            Some(true)
        } else if sample.right_held {
            Some(false)
        } else {
            None
        },
        dx: ((if sample.right_held { STRIDE as int } else { 0 })
            - (if sample.left_held { STRIDE as int } else { 0 })) as i32,
        dy: ((if sample.jump_pressed { JUMP as int } else { 0 })
            - (if sample.jump_released { JUMP as int } else { 0 })) as i32,
    }
}

/// Computes the motion of a frame from the keyboard sample.
pub fn steer(sample: &KeySample) -> (motion: Motion)
    ensures
        motion == steering(*sample),
{
    let mut motion = Motion { flip_x: None, dx: 0, dy: 0 };
    if sample.right_held {
        motion.flip_x = Some(false);
        motion.dx = motion.dx + STRIDE;
    }
    if sample.left_held {
        motion.flip_x = Some(true);
        motion.dx = motion.dx - STRIDE;
    }
    if sample.jump_pressed {
        motion.dy = motion.dy + JUMP;
    }
    if sample.jump_released {
        motion.dy = motion.dy - JUMP;
    }
    motion
}

/// The sprite: its horizontal flip and its position in whole units.
#[derive(Clone, Copy, Debug, PartialEq, Eq, Structural)]
pub struct SpriteState {
    pub flip_x: bool,
    pub x: i64,
    pub y: i64,
}

impl View for SpriteState {
    type V = Pose;

    open spec fn view(&self) -> Pose {
        Pose { flip_x: self.flip_x, x: self.x as int, y: self.y as int }
    }
}

impl SpriteState {
    /// The position after `motion` still fits the coordinates.
    pub open spec fn admits(&self, motion: Motion) -> bool {
        &&& i64::MIN <= self.x + motion.dx <= i64::MAX
        &&& i64::MIN <= self.y + motion.dy <= i64::MAX
    }

    /// Every motion of one frame fits the coordinates.
    pub open spec fn has_room(&self) -> bool {
        &&& i64::MIN + STRIDE <= self.x <= i64::MAX - STRIDE
        &&& i64::MIN + JUMP <= self.y <= i64::MAX - JUMP
    }

    /// Whether every motion of one frame fits the coordinates.
    pub fn room(&self) -> (fits: bool)
        ensures
            fits == self.has_room(),
    {
        let stride: i64 = STRIDE as i64;
        let jump: i64 = JUMP as i64;
        i64::MIN + stride <= self.x && self.x <= i64::MAX - stride && i64::MIN + jump <= self.y
            && self.y <= i64::MAX - jump
    }

    /// Moves the sprite by `motion`.
    pub fn apply(&mut self, motion: &Motion)
        requires
            old(self).admits(*motion),
        ensures
            final(self)@ == old(self)@.shifted(*motion),
    {
        match motion.flip_x {
            Some(flip) => {
                self.flip_x = flip;
            },
            None => {},
        }
        self.x = self.x + motion.dx as i64;
        self.y = self.y + motion.dy as i64;
    }

    /// Moves the sprite as the keyboard sample of one frame says.
    pub fn step(&mut self, sample: &KeySample)
        requires
            old(self).has_room(),
        ensures
            final(self)@ == old(self)@.shifted(steering(*sample)),
    {
        let motion = steer(sample);
        self.apply(&motion);
    }
}

/// One frame of the steering: reads the engine's keyboard state and moves
/// the sprite by what it says.
pub fn direct_sprite(state: &mut SpriteState, keys: &ButtonInput<KeyCode>)
    requires
        old(state).has_room(),
    ensures
        final(state)@ == old(state)@.shifted(
            steering(
                KeySample::of_sets(pressed_keys(*keys), just_pressed_keys(*keys), just_released_keys(*keys)),
            ),
        ),
{
    let sample = KeySample::read(keys);
    state.step(&sample);
}

/// The right arrow alone turns the sprite to the right, whatever way it
/// faced, and moves it [`STRIDE`] to the right; the height changes only by
/// the jump key.
pub proof fn lemma_right_turns_right(pose: Pose, sample: KeySample)
    requires
        sample.right_held,
        !sample.left_held,
    ensures
        pose.shifted(steering(sample)).flip_x == false,
        pose.shifted(steering(sample)).x == pose.x + STRIDE,
{
}

/// The left arrow turns the sprite to the left, whatever way it faced and
/// whatever else is held. Alone it moves the sprite [`STRIDE`] to the left;
/// together with the right arrow it leaves the sprite where it is.
pub proof fn lemma_left_turns_left(pose: Pose, sample: KeySample)
    requires
        sample.left_held,
    ensures
        pose.shifted(steering(sample)).flip_x == true,
        !sample.right_held ==> pose.shifted(steering(sample)).x == pose.x - STRIDE,
        sample.right_held ==> pose.shifted(steering(sample)).x == pose.x,
{
}

/// With no arrow held the sprite keeps its facing and its horizontal
/// position.
pub proof fn lemma_no_arrow_no_turn(pose: Pose, sample: KeySample)
    requires
        !sample.right_held,
        !sample.left_held,
    ensures
        pose.shifted(steering(sample)).flip_x == pose.flip_x,
        pose.shifted(steering(sample)).x == pose.x,
{
}

/// The parts of a frame add up to the frame: moving the sprite by the four
/// parts of a sample, one after the other, leaves it where the sample as a
/// whole moves it, facing the same way.
pub proof fn lemma_parts_add_up(pose: Pose, sample: KeySample)
    ensures
        pose.replayed(sample.parts()) == pose.shifted(steering(sample)),
{
    let parts = sample.parts();
    let three = parts.take(3);
    let two = parts.take(2);
    let one = parts.take(1);
    assert(parts.drop_last() =~= three);
    assert(three.drop_last() =~= two);
    assert(two.drop_last() =~= one);
    assert(one.drop_last() =~= Seq::<KeySample>::empty());
    assert(pose.replayed(Seq::<KeySample>::empty()) == pose);
    assert(pose.replayed(one) == pose.shifted(steering(parts[0])));
    assert(pose.replayed(two) == pose.replayed(one).shifted(steering(parts[1])));
    assert(pose.replayed(three) == pose.replayed(two).shifted(steering(parts[2])));
    assert(pose.replayed(parts) == pose.replayed(three).shifted(steering(parts[3])));
}

/// One jump returns to the ground. In a sequence of frames where the jump
/// key goes down in frame `press`, comes up in the later frame `release` and
/// does neither in any other frame, the sprite is [`JUMP`] above its first
/// height after each frame from `press` to just before `release`, and at its
/// first height after every other frame: the net displacement is zero.
pub proof fn lemma_single_jump_lands(pose: Pose, samples: Seq<KeySample>, press: int, release: int)
    requires
        0 <= press < release < samples.len(),
        samples[press].jump_pressed && !samples[press].jump_released,
        samples[release].jump_released && !samples[release].jump_pressed,
        forall|k: int|
            0 <= k < samples.len() && k != press && k != release ==> !(#[trigger] samples[k]).jump_pressed
                && !samples[k].jump_released,
    ensures
        pose.replayed(samples).y == pose.y,
        forall|n: int|
            0 <= n <= samples.len() ==> (#[trigger] pose.replayed(samples.take(n))).y == if press < n
                <= release {
                pose.y + JUMP
            } else {
                pose.y
            },
{
    assert forall|n: int| 0 <= n <= samples.len() implies (#[trigger] pose.replayed(
        samples.take(n),
    )).y == if press < n <= release {
        pose.y + JUMP
    } else {
        pose.y
    } by {
        lemma_jump_height(pose, samples, press, release, n);
    }
    assert(samples.take(samples.len() as int) =~= samples);
}

proof fn lemma_jump_height(pose: Pose, samples: Seq<KeySample>, press: int, release: int, n: int)
    requires
        0 <= press < release < samples.len(),
        samples[press].jump_pressed && !samples[press].jump_released,
        samples[release].jump_released && !samples[release].jump_pressed,
        forall|k: int|
            0 <= k < samples.len() && k != press && k != release ==> !(#[trigger] samples[k]).jump_pressed
                && !samples[k].jump_released,
        0 <= n <= samples.len(),
    ensures
        pose.replayed(samples.take(n)).y == if press < n <= release {
            pose.y + JUMP
        } else {
            pose.y
        },
    decreases n,
{
    if n > 0 {
        lemma_jump_height(pose, samples, press, release, n - 1);
        assert(samples.take(n).drop_last() =~= samples.take(n - 1));
        assert(samples.take(n).last() == samples[n - 1]);
    }
}

/// The pose after the frames whose held keys are `frames`, in order, where
/// `before` was held in the frame before the first: each frame's sample is
/// made from the keys held in the frame before it and those held in it.
pub open spec fn followed(pose: Pose, before: HeldKeys, frames: Seq<HeldKeys>) -> Pose
    decreases frames.len(),
{
    if frames.len() == 0 {
        pose
    } else {
        let earlier = frames.drop_last();
        let previous = if earlier.len() == 0 {
            before
        } else {
            earlier.last()
        };
        followed(pose, before, earlier).shifted(steering(KeySample::of_snapshots(previous, frames.last())))
    }
}

/// The height follows the jump key. Where each frame's sample is made from
/// two snapshots of the held keys, the sprite is [`JUMP`] higher after a
/// frame with the jump key held than after one without it, whatever happened
/// in between: no sequence of presses and releases lets the height drift.
pub proof fn lemma_height_follows_jump_key(pose: Pose, before: HeldKeys, frames: Seq<HeldKeys>)
    requires
        frames.len() > 0,
    ensures
        followed(pose, before, frames).y == pose.y + (if frames.last().space {
            JUMP as int
        } else {
            0
        }) - (if before.space {
            JUMP as int
        } else {
            0
        }),
    decreases frames.len(),
{
    let earlier = frames.drop_last();
    let previous = if earlier.len() == 0 {
        before
    } else {
        earlier.last()
    };
    let sample = KeySample::of_snapshots(previous, frames.last());
    assert(sample.jump_pressed == (frames.last().space && !previous.space));
    assert(sample.jump_released == (previous.space && !frames.last().space));
    if earlier.len() > 0 {
        lemma_height_follows_jump_key(pose, before, earlier);
    } else {
        assert(followed(pose, before, earlier) == pose);
    }
}

} // verus!
