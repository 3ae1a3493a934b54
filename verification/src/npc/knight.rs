//! The player-controlled knight: its state machine, its clips and its
//! horizontal movement.

use vstd::prelude::*;
use crate::common::animsprite::{
    animate_sprite, AnimationIndices, AnimationRange, AnimationResetFlag, AnimationTimer,
    AtlasSprite, FrameTimer,
};
use crate::common::input::HeldKeys;

verus! {

/// The knight's speed, in world units per second.
pub const KNIGHT_SPEED: i64 = 400;

/// Position units per world unit. It equals the number of nanoseconds in a
/// second, so a speed in world units per second times a time in nanoseconds
/// is a distance in position units.
pub const POSITION_UNITS_PER_WORLD_UNIT: i64 = 1_000_000_000;

/// The uniform scale at which the knight is drawn.
pub const KNIGHT_SCALE: u32 = 6;

/// The time between two frames of a clip, in nanoseconds.
pub const FRAME_INTERVAL: u64 = 100_000_000;

/// Width of one frame of the sprite sheet, in pixels.
pub const FRAME_WIDTH: u32 = 120;

/// Height of one frame of the sprite sheet, in pixels.
pub const FRAME_HEIGHT: u32 = 80;

/// Number of frames in a row of the sprite sheet.
pub const ATLAS_COLUMNS: usize = 24;

/// Number of rows of the sprite sheet.
pub const ATLAS_ROWS: usize = 1;

/// What the knight is doing. Exactly one of these holds at any time.
#[derive(Clone, Copy, Debug, PartialEq, Eq, Hash, Structural)]
pub enum KnightState {
    Idle,
    Run,
    Attack,
}

impl KnightState {
    /// The clip that belongs to a state.
    pub open spec fn clip(self) -> AnimationRange {
        match self {
            KnightState::Idle => AnimationRange { first: 0, last: 9 },
            KnightState::Run => AnimationRange { first: 10, last: 19 },
            KnightState::Attack => AnimationRange { first: 20, last: 23 },
        }
    }
}

/// The state that movement alone asks for: Run while a movement key is
/// held, Idle otherwise.
pub open spec fn movement_state(keys: HeldKeys) -> KnightState {
    if keys.moving() {
        KnightState::Run
    } else {
        KnightState::Idle
    }
}

/// The state after a tick. It depends on the held keys alone, not on the
/// state before: attack wins over movement, movement over standing still.
pub open spec fn target_state(keys: HeldKeys) -> KnightState {
    if keys.attack {
        KnightState::Attack
    } else {
        movement_state(keys)
    }
}

/// The facing after a tick: left alone turns the knight left, right alone
/// turns it right, and with neither or both held it keeps facing as it did.
pub open spec fn facing(keys: HeldKeys, flip_x: bool) -> bool {
    if keys.left && !keys.right {
        true
    } else if keys.right && !keys.left {
        false
    } else {
        flip_x
    }
}

/// The distance covered in `delta` nanoseconds, in position units: speed
/// times direction times time.
pub open spec fn displacement(keys: HeldKeys, delta: nat) -> int {
    KNIGHT_SPEED * keys.direction() * delta
}

/// The displacement written out for each way of holding the movement keys:
/// right alone covers speed times time, left alone the same the other way,
/// and neither or both cover nothing.
pub proof fn displacement_by_keys(keys: HeldKeys, delta: nat)
    ensures
        keys.right && !keys.left ==> displacement(keys, delta) == KNIGHT_SPEED * delta,
        keys.left && !keys.right ==> displacement(keys, delta) == -(KNIGHT_SPEED * delta),
        keys.left == keys.right ==> displacement(keys, delta) == 0,
{
    let s = KNIGHT_SPEED as int;
    let d = keys.direction();
    let t = delta as int;
    if d == 1 {
        assert(s * d * t == s * t) by (nonlinear_arith)
            requires
                d == 1,
        ;
    } else if d == -1 {
        assert(s * d * t == -(s * t)) by (nonlinear_arith)
            requires
                d == -1,
        ;
    } else {
        assert(s * d * t == 0) by (nonlinear_arith)
            requires
                d == 0,
        ;
    }
}

/// What the position unit means: running for one second covers the speed
/// in world units.
pub proof fn one_second_covers_the_speed(keys: HeldKeys)
    requires
        keys.right,
        !keys.left,
    ensures
        displacement(keys, 1_000_000_000) == KNIGHT_SPEED * POSITION_UNITS_PER_WORLD_UNIT,
{
    displacement_by_keys(keys, 1_000_000_000);
}

/// The knight as plain mathematics.
pub struct KnightModel {
    pub state: KnightState,
    pub range: AnimationRange,
    pub timer: FrameTimer,
    pub reset: bool,
    pub frame: nat,
    pub flip_x: bool,
    pub x: int,
}

impl KnightModel {
    /// The knight as it enters the world: standing idle at the origin on the
    /// first frame of the idle clip, facing right.
    pub open spec fn spawned() -> KnightModel {
        KnightModel {
            state: KnightState::Idle,
            range: KnightState::Idle.clip(),
            timer: FrameTimer::fresh(FRAME_INTERVAL as nat),
            reset: true,
            frame: 0,
            flip_x: false,
            x: 0,
        }
    }

    /// What holds of the knight between ticks: the clip is that of the
    /// state, the frame cursor points into the sprite sheet and the timer
    /// has not reached its interval.
    pub open spec fn wf(self) -> bool {
        &&& self.range == self.state.clip()
        &&& self.frame < ATLAS_COLUMNS * ATLAS_ROWS
        &&& self.timer.wf()
    }

    /// One tick: the held keys decide the state, the state decides the clip,
    /// the timer runs on by `delta` and, if it fires, the frame cursor steps
    /// on within the new clip. Facing and position follow the movement keys.
    pub open spec fn tick(self, keys: HeldKeys, delta: nat) -> KnightModel {
        let state = target_state(keys);
        let range = state.clip();
        let timer = self.timer.tick(delta);
        KnightModel {
            state,
            range,
            timer,
            reset: self.reset,
            frame: if timer.just_finished {
                range.next(self.frame)
            } else {
                self.frame
            },
            flip_x: facing(keys, self.flip_x),
            x: self.x + displacement(keys, delta),
        }
    }
}

/// Every clip is a well-formed range of frames of the sprite sheet.
pub proof fn clips_lie_in_sheet(state: KnightState)
    ensures
        state.clip().wf(),
        state.clip().last < ATLAS_COLUMNS * ATLAS_ROWS,
{
}

/// The state after a tick is a function of the held keys alone. So ticking
/// again with the same keys held, for whatever time, yields the same state
/// and leaves the clip as it is.
pub proof fn same_keys_keep_state_and_clip(
    knight: KnightModel,
    keys: HeldKeys,
    delta: nat,
    next_delta: nat,
)
    ensures
        knight.tick(keys, delta).state == target_state(keys),
        knight.tick(keys, delta).tick(keys, next_delta).state == knight.tick(keys, delta).state,
        knight.tick(keys, delta).tick(keys, next_delta).range == knight.tick(keys, delta).range,
{
}

/// Attack overrides movement: with the attack key held the knight attacks
/// and plays the attack clip, whether or not a movement key is held too and
/// whatever it did before.
pub proof fn attack_overrides_movement(knight: KnightModel, keys: HeldKeys, delta: nat)
    requires
        keys.attack,
    ensures
        knight.tick(keys, delta).state == KnightState::Attack,
        knight.tick(keys, delta).range == (AnimationRange { first: 20, last: 23 }),
{
}

/// Without attack, movement decides: with a movement key held the knight
/// runs and plays the run clip, whatever it did before.
pub proof fn movement_decides_without_attack(knight: KnightModel, keys: HeldKeys, delta: nat)
    requires
        !keys.attack,
        keys.left || keys.right,
    ensures
        knight.tick(keys, delta).state == KnightState::Run,
        knight.tick(keys, delta).range == (AnimationRange { first: 10, last: 19 }),
{
}

/// No state lingers: with all keys released the knight is idle and plays the
/// idle clip on the very next tick, whatever it did before.
pub proof fn release_returns_to_idle(knight: KnightModel, keys: HeldKeys, delta: nat)
    requires
        !keys.left,
        !keys.right,
        !keys.attack,
    ensures
        knight.tick(keys, delta).state == KnightState::Idle,
        knight.tick(keys, delta).range == (AnimationRange { first: 0, last: 9 }),
{
}

/// Movement is exact: a tick moves the knight by speed times direction times
/// time, with a direction of -1, 0 or 1. Holding both movement keys gives
/// direction 0 and leaves the knight where it is, whichever way it faces.
pub proof fn movement_is_exact(knight: KnightModel, keys: HeldKeys, delta: nat)
    ensures
        -1 <= keys.direction() <= 1,
        knight.tick(keys, delta).x == knight.x + KNIGHT_SPEED * keys.direction() * delta,
        keys.left && keys.right ==> keys.direction() == 0 && knight.tick(keys, delta).x
            == knight.x,
{
    displacement_by_keys(keys, delta);
}

/// A tick keeps the knight well-formed; in particular the frame cursor
/// never leaves the sprite sheet.
pub proof fn tick_preserves_wf(knight: KnightModel, keys: HeldKeys, delta: nat)
    requires
        knight.wf(),
    ensures
        knight.tick(keys, delta).wf(),
{
}

/// The knight and all that belongs to it.
#[derive(Clone, Copy, Debug, PartialEq, Eq, Structural)]
pub struct Knight {
    pub state: KnightState,
    pub indices: AnimationIndices,
    pub timer: AnimationTimer,
    pub reset_flag: AnimationResetFlag,
    pub sprite: AtlasSprite,
    /// Horizontal position, in position units.
    pub x: i64,
}

impl View for Knight {
    type V = KnightModel;

    open spec fn view(&self) -> KnightModel {
        KnightModel {
            state: self.state,
            range: self.indices@,
            timer: self.timer@,
            reset: self.reset_flag.0,
            frame: self.sprite.index as nat,
            flip_x: self.sprite.flip_x,
            x: self.x as int,
        }
    }
}

/// Computes the displacement: the movement keys add up to a direction, and
/// the knight covers its speed in that direction for `delta` nanoseconds.
fn displacement_of(keys: HeldKeys, delta: u64) -> (shift: i128)
    ensures
        shift == displacement(keys, delta as nat),
        -400 * u64::MAX <= shift <= 400 * u64::MAX,
{
    assert(0 <= KNIGHT_SPEED * delta <= 400 * u64::MAX) by (nonlinear_arith)
        requires
            KNIGHT_SPEED == 400,
            0 <= delta <= u64::MAX,
    ;
    let step: i128 = KNIGHT_SPEED as i128 * delta as i128;
    let mut shift: i128 = 0;

    if keys.left {
        shift = shift - step;
    }
    if keys.right {
        shift = shift + step;
    }
    proof {
        displacement_by_keys(keys, delta as nat);
    }
    shift
}

/// Whether a position can hold the move that the held keys ask for in
/// `delta` nanoseconds.
pub fn can_move(keys: HeldKeys, delta: u64, x: i64) -> (fits: bool)
    ensures
        fits == (i64::MIN <= x + displacement(keys, delta as nat) <= i64::MAX),
{
    let target: i128 = x as i128 + displacement_of(keys, delta);
    i64::MIN as i128 <= target && target <= i64::MAX as i128
}

/// Movement: sets the state to Run or Idle by the movement keys, whatever it
/// was, and moves the knight along the x axis by speed times direction times
/// `delta` nanoseconds. There is no bound on the position but that of `i64`.
pub fn move_knight(keys: HeldKeys, delta: u64, x: &mut i64, state: &mut KnightState)
    requires
        i64::MIN <= *old(x) + displacement(keys, delta as nat) <= i64::MAX,
    ensures
        *final(state) == movement_state(keys),
        *final(x) == *old(x) + displacement(keys, delta as nat),
{
    if keys.left || keys.right {
        *state = KnightState::Run;
    } else {
        *state = KnightState::Idle;
    }
    *x = (*x as i128 + displacement_of(keys, delta)) as i64;
}

/// Facing: turns the knight by the movement keys and leaves the frame
/// cursor alone.
pub fn flip_knight(keys: HeldKeys, sprite: &mut AtlasSprite)
    ensures
        final(sprite).flip_x == facing(keys, old(sprite).flip_x),
        final(sprite).index == old(sprite).index,
{
    if keys.left && !keys.right {
        sprite.flip_x = true;
    }
    if keys.right && !keys.left {
        sprite.flip_x = false;
    }
}

/// Attack: while the attack key is held the state is Attack, whatever it
/// was; otherwise the state stays.
pub fn attack(keys: HeldKeys, state: &mut KnightState)
    ensures
        *final(state) == (if keys.attack {
            KnightState::Attack
        } else {
            *old(state)
        }),
{
    if keys.attack {
        *state = KnightState::Attack;
    }
}

/// Rewrites the clip to that of the state. The frame cursor is not touched.
pub fn update_knight_state(state: &KnightState, indices: &mut AnimationIndices)
    ensures
        final(indices)@ == state.clip(),
{
    match state {
        KnightState::Idle => {
            indices.first = 0;
            indices.last = 9;
        },
        KnightState::Run => {
            indices.first = 10;
            indices.last = 19;
        },
        KnightState::Attack => {
            indices.first = 20;
            indices.last = 23;
        },
    }
}

impl Knight {
    /// The knight as it enters the world.
    pub fn spawn() -> (knight: Knight)
        ensures
            knight@ == KnightModel::spawned(),
            knight@.wf(),
    {
        let indices = AnimationIndices { first: 0, last: 9 };
        Knight {
            state: KnightState::Idle,
            sprite: AtlasSprite { index: indices.first, flip_x: false },
            indices,
            timer: AnimationTimer::repeating(FRAME_INTERVAL),
            reset_flag: AnimationResetFlag(true),
            x: 0,
        }
    }

    /// One tick of the knight with the keys held during it and the
    /// nanoseconds that have passed: movement, facing, attack, clip and
    /// animation, in this order.
    pub fn tick(&mut self, keys: HeldKeys, delta: u64)
        requires
            i64::MIN <= old(self).x + displacement(keys, delta as nat) <= i64::MAX,
        ensures
            final(self)@ == old(self)@.tick(keys, delta as nat),
            old(self)@.wf() ==> final(self)@.wf(),
    {
        move_knight(keys, delta, &mut self.x, &mut self.state);
        flip_knight(keys, &mut self.sprite);
        attack(keys, &mut self.state);
        update_knight_state(&self.state, &mut self.indices);
        animate_sprite(delta, &self.indices, &mut self.timer, &mut self.sprite);
    }

    /// One tick if the position can hold the move, and nothing otherwise.
    /// Says which of the two it was.
    pub fn try_tick(&mut self, keys: HeldKeys, delta: u64) -> (ticked: bool)
        ensures
            ticked == (i64::MIN <= old(self).x + displacement(keys, delta as nat) <= i64::MAX),
            ticked ==> final(self)@ == old(self)@.tick(keys, delta as nat),
            !ticked ==> *final(self) == *old(self),
            old(self)@.wf() ==> final(self)@.wf(),
    {
        if can_move(keys, delta, self.x) {
            self.tick(keys, delta);
            true
        } else {
            false
        }
    }
}

} // verus!
