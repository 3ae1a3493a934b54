//! The snapshot of held keys that a tick works on.

use vstd::prelude::*;

verus! {

/// Which of the three logical keys are held during one tick.
#[derive(Clone, Copy, Debug, PartialEq, Eq, Structural)]
pub struct HeldKeys {
    /// The move-left key.
    pub left: bool,
    /// The move-right key.
    pub right: bool,
    /// The attack key.
    pub attack: bool,
}

impl HeldKeys {
    /// Whether a movement key is held.
    pub open spec fn moving(self) -> bool {
        self.left || self.right
    }

    /// The signed unit direction: -1 for left, +1 for right. Both keys add
    /// up, so holding both, like holding neither, gives 0.
    pub open spec fn direction(self) -> int {
        (if self.right { 1int } else { 0int }) - (if self.left { 1int } else { 0int })
    }
}

} // verus!
