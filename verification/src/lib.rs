//! Per-frame logic of an animated, keyboard-steered sprite.
//!
//! The crate holds the two rules that run once per frame: the frame cursor
//! that cycles through a sub-range of a sprite sheet on a repeating timer,
//! and the steering that turns the keyboard state into a move of the sprite.
//! Rendering, windowing and the entity store belong to the engine.

pub mod animation;
pub mod clock;
pub mod input;
pub mod sprite;
