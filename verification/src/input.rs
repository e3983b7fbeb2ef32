//! The keyboard as the steering reads it.
//!
//! Three keys matter. The engine's `ButtonInput` says of each whether it is
//! held, and whether it went down or came up since the last frame. A
//! [`KeySample`] holds the four answers the steering asks for as plain
//! values; it can be read from the engine, or made from two snapshots of the
//! held keys.

use vstd::prelude::*;
use bevy::input::ButtonInput;
use bevy::input::keyboard::KeyCode;

verus! {

/// The keys that steer the sprite.
#[derive(Clone, Copy, Debug, PartialEq, Eq, Structural)]
pub enum Key {
    ArrowRight,
    ArrowLeft,
    Space,
}

/// The engine's key codes, carried through and never inspected.
#[verifier::external_type_specification]
#[verifier::external_body]
pub struct ExKeyCode(KeyCode);

/// The engine's record of which buttons are held and which changed in the
/// current frame.
#[verifier::external_type_specification]
#[verifier::external_body]
#[verifier::reject_recursive_types(T)]
pub struct ExButtonInput<T: Copy + Eq + std::hash::Hash + Send + Sync + 'static>(ButtonInput<T>);

/// The steering keys that are held.
pub uninterp spec fn pressed_keys(keys: ButtonInput<KeyCode>) -> Set<Key>;

/// The steering keys that went down in the current frame.
pub uninterp spec fn just_pressed_keys(keys: ButtonInput<KeyCode>) -> Set<Key>;

/// The steering keys that came up in the current frame.
pub uninterp spec fn just_released_keys(keys: ButtonInput<KeyCode>) -> Set<Key>;

/// `ButtonInput::pressed` for the key code of `key`: whether the key is held.
#[verifier::external_body]
pub(crate) fn key_pressed(keys: &ButtonInput<KeyCode>, key: Key) -> (held: bool)
    ensures
        held == pressed_keys(*keys).contains(key),
{
    keys.pressed(match key {
        Key::ArrowRight => KeyCode::ArrowRight,
        Key::ArrowLeft => KeyCode::ArrowLeft,
        Key::Space => KeyCode::Space,
    })
}

/// `ButtonInput::just_pressed` for the key code of `key`: whether the key
/// went down in the current frame.
#[verifier::external_body]
pub(crate) fn key_just_pressed(keys: &ButtonInput<KeyCode>, key: Key) -> (down: bool)
    ensures
        down == just_pressed_keys(*keys).contains(key),
{
    keys.just_pressed(match key {
        Key::ArrowRight => KeyCode::ArrowRight,
        Key::ArrowLeft => KeyCode::ArrowLeft,
        Key::Space => KeyCode::Space,
    })
}

/// `ButtonInput::just_released` for the key code of `key`: whether the key
/// came up in the current frame.
#[verifier::external_body]
pub(crate) fn key_just_released(keys: &ButtonInput<KeyCode>, key: Key) -> (up: bool)
    ensures
        up == just_released_keys(*keys).contains(key),
{
    keys.just_released(match key {
        Key::ArrowRight => KeyCode::ArrowRight,
        Key::ArrowLeft => KeyCode::ArrowLeft,
        Key::Space => KeyCode::Space,
    })
}

/// Which of the steering keys are held at one moment.
#[derive(Clone, Copy, Debug, PartialEq, Eq, Structural)]
pub struct HeldKeys {
    pub right: bool,
    pub left: bool,
    pub space: bool,
}

impl HeldKeys {
    /// The held keys as a set.
    pub open spec fn view(&self) -> Set<Key> {
        Set::new(|k: Key| match k {
                Key::ArrowRight => self.right,
                Key::ArrowLeft => self.left,
                Key::Space => self.space,
            })
    }

    /// Reads the held steering keys from the engine's keyboard state.
    pub fn read(keys: &ButtonInput<KeyCode>) -> (held: HeldKeys)
        ensures
            held@ == pressed_keys(*keys),
    {
        let held = HeldKeys {
            right: key_pressed(keys, Key::ArrowRight),
            left: key_pressed(keys, Key::ArrowLeft),
            space: key_pressed(keys, Key::Space),
        };
        assert(held@ =~= pressed_keys(*keys)) by {
            assert forall|k: Key| held@.contains(k) == pressed_keys(*keys).contains(k) by {
                match k {
                    Key::ArrowRight => {},
                    Key::ArrowLeft => {},
                    Key::Space => {},
                }
            }
        }
        held
    }

    /// Whether `key` is held.
    pub fn holds(&self, key: Key) -> (held: bool)
        ensures
            held == self@.contains(key),
    {
        match key {
            Key::ArrowRight => self.right,
            Key::ArrowLeft => self.left,
            Key::Space => self.space,
        }
    }
}

/// What the steering reads of the keyboard in one frame.
#[derive(Clone, Copy, Debug, PartialEq, Eq, Structural)]
pub struct KeySample {
    /// The right arrow is held.
    pub right_held: bool,
    /// The left arrow is held.
    pub left_held: bool,
    /// The jump key went down in this frame.
    pub jump_pressed: bool,
    /// The jump key came up in this frame.
    pub jump_released: bool,
}

impl KeySample {
    /// The sample that three sets of keys give: the held keys, those that
    /// went down and those that came up.
    pub open spec fn of_sets(held: Set<Key>, down: Set<Key>, up: Set<Key>) -> KeySample {
        KeySample {
            right_held: held.contains(Key::ArrowRight),
            left_held: held.contains(Key::ArrowLeft),
            jump_pressed: down.contains(Key::Space),
            jump_released: up.contains(Key::Space),
        }
    }

    /// The sample that two snapshots give: a key went down where it is held
    /// now and was not before, and came up where it was held before and is
    /// not now.
    pub open spec fn of_snapshots(before: HeldKeys, now: HeldKeys) -> KeySample {
        Self::of_sets(now@, now@.difference(before@), before@.difference(now@))
    }

    /// The sample in which nothing happens.
    pub open spec fn quiet() -> KeySample {
        KeySample { right_held: false, left_held: false, jump_pressed: false, jump_released: false }
    }

    /// The four things that a frame asks of the keyboard, each as a sample
    /// in which nothing else happens, in the order in which the steering
    /// takes them: the right arrow, the left arrow, the jump key going down,
    /// the jump key coming up.
    pub open spec fn parts(self) -> Seq<KeySample> {
        seq![
            (KeySample { right_held: self.right_held, ..Self::quiet() }),
            (KeySample { left_held: self.left_held, ..Self::quiet() }),
            (KeySample { jump_pressed: self.jump_pressed, ..Self::quiet() }),
            (KeySample { jump_released: self.jump_released, ..Self::quiet() }),
        ]
    }

    /// Splits the sample into its four parts, for a caller that moves the
    /// sprite one step at a time.
    pub fn checks(&self) -> (parts: [KeySample; 4])
        ensures
            parts@ == self.parts(),
    {
        let quiet = KeySample {
            right_held: false,
            left_held: false,
            jump_pressed: false,
            jump_released: false,
        };
        let parts = [
            KeySample { right_held: self.right_held, ..quiet },
            KeySample { left_held: self.left_held, ..quiet },
            KeySample { jump_pressed: self.jump_pressed, ..quiet },
            KeySample { jump_released: self.jump_released, ..quiet },
        ];
        assert(parts@ =~= self.parts());
        parts
    }

    /// Reads the sample of the current frame from the engine's keyboard
    /// state.
    pub fn read(keys: &ButtonInput<KeyCode>) -> (sample: KeySample)
        ensures
            sample == Self::of_sets(pressed_keys(*keys), just_pressed_keys(*keys), just_released_keys(*keys)),
    {
        KeySample {
            right_held: key_pressed(keys, Key::ArrowRight),
            left_held: key_pressed(keys, Key::ArrowLeft),
            jump_pressed: key_just_pressed(keys, Key::Space),
            jump_released: key_just_released(keys, Key::Space),
        }
    }

    /// Makes the sample of the current frame from the keys held in the
    /// previous frame and those held now.
    pub fn from_snapshots(before: &HeldKeys, now: &HeldKeys) -> (sample: KeySample)
        ensures
            sample == Self::of_snapshots(*before, *now),
            sample.right_held == now.right,
            sample.left_held == now.left,
            sample.jump_pressed == (now.space && !before.space),
            sample.jump_released == (before.space && !now.space),
    {
        KeySample {
            right_held: now.right,
            left_held: now.left,
            jump_pressed: now.space && !before.space,
            jump_released: before.space && !now.space,
        }
    }
}

} // verus!
