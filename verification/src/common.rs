//! Components that any animated entity can carry.

pub mod animsprite;
pub mod input;
