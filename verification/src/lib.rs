//! The logical core of a small 2D platformer: a repeating frame timer, a
//! sprite frame cursor that cycles through the clip of the active state, and
//! the knight's Idle / Run / Attack state machine with its horizontal
//! movement.
//!
//! Everything here is a synchronous function of the current state, the keys
//! held during a tick and the time that has passed. A host game loop feeds
//! those in and renders what comes out: the frame index, the facing and the
//! position.
//!
//! Time is counted in whole nanoseconds. Positions are counted in billionths
//! of a world unit, so that a speed in world units per second times a time in
//! nanoseconds is an exact integer.

pub mod common;
pub mod npc;
