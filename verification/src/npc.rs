//! Characters.

pub mod knight;
