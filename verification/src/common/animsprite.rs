//! Frame-based sprite animation: the clip an entity plays, the timer that
//! paces it and the cursor that walks through it.

use vstd::prelude::*;

verus! {

/// A clip as a pair of frame numbers: the frames `first ..= last` of a
/// sprite sheet.
pub struct AnimationRange {
    pub first: nat,
    pub last: nat,
}

impl AnimationRange {
    /// A clip holds at least one frame.
    pub open spec fn wf(self) -> bool {
        self.first <= self.last
    }

    /// Whether `frame` is one of the clip's frames.
    pub open spec fn contains(self, frame: nat) -> bool {
        self.first <= frame <= self.last
    }

    /// The frame shown after `frame`: the next one, or the first again once
    /// the last is reached or passed. This is a cyclic step, not a modulo:
    /// a cursor below the clip climbs one frame at a time, a cursor above it
    /// falls back to the first frame at once.
    pub open spec fn next(self, frame: nat) -> nat {
        if frame >= self.last {
            self.first
        } else {
            frame + 1
        }
    }

    /// The frame shown after `steps` steps from `frame`.
    pub open spec fn advance(self, frame: nat, steps: nat) -> nat
        decreases steps,
    {
        if steps == 0 {
            frame
        } else {
            self.advance(self.next(frame), (steps - 1) as nat)
        }
    }

    /// The number of steps after which a cursor at `frame` is at the
    /// clip's first frame: one more than the frames left up to the last.
    pub open spec fn steps_to_first(self, frame: nat) -> nat {
        if frame >= self.last {
            1
        } else {
            (self.last - frame + 1) as nat
        }
    }
}

/// A repeating countdown: time piles up in `elapsed` until it reaches
/// `interval`; the tick on which it does so is the one that "just finished".
pub struct FrameTimer {
    pub interval: nat,
    pub elapsed: nat,
    pub just_finished: bool,
}

impl FrameTimer {
    /// Between two ticks a timer has never yet reached its interval.
    pub open spec fn wf(self) -> bool {
        self.elapsed == 0 || self.elapsed < self.interval
    }

    /// A timer of the given interval on which no time has passed.
    pub open spec fn fresh(interval: nat) -> FrameTimer {
        FrameTimer { interval, elapsed: 0, just_finished: false }
    }

    /// One tick of `delta`. When the accumulated time reaches the interval
    /// the timer fires and starts again from zero; what went beyond the
    /// interval is dropped.
    pub open spec fn tick(self, delta: nat) -> FrameTimer {
        if self.elapsed + delta >= self.interval {
            FrameTimer { interval: self.interval, elapsed: 0, just_finished: true }
        } else {
            FrameTimer { interval: self.interval, elapsed: self.elapsed + delta, just_finished: false }
        }
    }

    /// The timer after one tick for each of `deltas`, in order.
    pub open spec fn tick_all(self, deltas: Seq<nat>) -> FrameTimer
        decreases deltas.len(),
    {
        if deltas.len() == 0 {
            self
        } else {
            self.tick(deltas[0]).tick_all(deltas.skip(1))
        }
    }

    /// How many of the ticks in `deltas` fire.
    pub open spec fn fires(self, deltas: Seq<nat>) -> nat
        decreases deltas.len(),
    {
        if deltas.len() == 0 {
            0
        } else {
            let after = self.tick(deltas[0]);
            (if after.just_finished { 1nat } else { 0nat }) + after.fires(deltas.skip(1))
        }
    }
}

/// The sum of a sequence of time steps.
pub open spec fn total(deltas: Seq<nat>) -> nat
    decreases deltas.len(),
{
    if deltas.len() == 0 {
        0
    } else {
        deltas[0] + total(deltas.skip(1))
    }
}

/// The three cases of a cursor step: at the last frame and beyond it the
/// cursor goes back to the first frame, below the last frame it moves on by
/// one. A cursor inside a clip therefore stays inside it.
pub proof fn cursor_step_cases(range: AnimationRange, frame: nat)
    ensures
        frame == range.last ==> range.next(frame) == range.first,
        frame < range.last ==> range.next(frame) == frame + 1,
        frame > range.last ==> range.next(frame) == range.first,
        range.wf() && range.contains(frame) ==> range.contains(range.next(frame)),
{
}

/// Wherever a cursor stands when a clip is set, it gets to the clip's first
/// frame, and so into the clip: at once from the last frame or beyond, and
/// from below after climbing up to the last frame.
pub proof fn cursor_reaches_first(range: AnimationRange, frame: nat)
    ensures
        range.advance(frame, range.steps_to_first(frame)) == range.first,
        range.wf() ==> range.contains(range.advance(frame, range.steps_to_first(frame))),
    decreases range.last - frame,
{
    reveal_with_fuel(AnimationRange::advance, 2);
    if frame < range.last {
        cursor_reaches_first(range, frame + 1);
    }
}

/// As long as the accumulated time stays below the interval, no tick fires
/// and the time steps simply add up.
pub proof fn timer_accumulates_below_interval(timer: FrameTimer, deltas: Seq<nat>)
    requires
        timer.elapsed + total(deltas) < timer.interval,
    ensures
        timer.fires(deltas) == 0,
        timer.tick_all(deltas).elapsed == timer.elapsed + total(deltas),
        timer.tick_all(deltas).interval == timer.interval,
    decreases deltas.len(),
{
    if deltas.len() > 0 {
        timer_accumulates_below_interval(timer.tick(deltas[0]), deltas.skip(1));
    }
}

/// Time steps that bring the accumulated time to exactly the interval make
/// the timer fire exactly once and leave it with no time accumulated. For a
/// timer on which no time has passed, these are the steps that sum to its
/// interval.
pub proof fn timer_fires_once_at_interval(timer: FrameTimer, deltas: Seq<nat>)
    requires
        timer.wf(),
        timer.interval > 0,
        timer.elapsed + total(deltas) == timer.interval,
    ensures
        timer.fires(deltas) == 1,
        timer.tick_all(deltas).elapsed == 0,
        timer.tick_all(deltas).interval == timer.interval,
    decreases deltas.len(),
{
    // With no step at all the accumulated time would already be the interval.
    assert(deltas.len() > 0);
    let after = timer.tick(deltas[0]);
    let rest = deltas.skip(1);
    if after.just_finished {
        timer_accumulates_below_interval(after, rest);
    } else {
        timer_fires_once_at_interval(after, rest);
    }
}

/// Time steps that sum to at most the interval and bring the accumulated
/// time up to it or beyond make the timer fire exactly once. So steps that
/// sum to exactly the interval fire once on every timer, whatever it had
/// accumulated before.
pub proof fn timer_fires_once_per_interval(timer: FrameTimer, deltas: Seq<nat>)
    requires
        timer.wf(),
        timer.interval > 0,
        total(deltas) <= timer.interval <= timer.elapsed + total(deltas),
    ensures
        timer.fires(deltas) == 1,
    decreases deltas.len(),
{
    assert(deltas.len() > 0);
    let after = timer.tick(deltas[0]);
    let rest = deltas.skip(1);
    if after.just_finished {
        // The step that fired was not empty, so less than an interval is left.
        timer_accumulates_below_interval(after, rest);
    } else {
        timer_fires_once_per_interval(after, rest);
    }
}

/// A tick leaves the timer below its interval, whatever it held before.
pub proof fn tick_restores_timer(timer: FrameTimer, delta: nat)
    ensures
        timer.tick(delta).wf(),
        timer.tick(delta).interval == timer.interval,
{
}

/// The clip that an entity is playing.
#[derive(Clone, Copy, Debug, PartialEq, Eq, Structural)]
pub struct AnimationIndices {
    pub first: usize,
    pub last: usize,
}

impl View for AnimationIndices {
    type V = AnimationRange;

    open spec fn view(&self) -> AnimationRange {
        AnimationRange { first: self.first as nat, last: self.last as nat }
    }
}

impl AnimationIndices {
    /// Advances a frame cursor by one step within this clip.
    pub fn next_index(&self, index: usize) -> (next: usize)
        ensures
            next as nat == self@.next(index as nat),
    {
        if index >= self.last {
            self.first
        } else {
            index + 1
        }
    }
}

/// The timer that paces an entity's animation. Times are in nanoseconds.
#[derive(Clone, Copy, Debug, PartialEq, Eq, Structural)]
pub struct AnimationTimer {
    interval: u64,
    elapsed: u64,
    finished: bool,
}

impl View for AnimationTimer {
    type V = FrameTimer;

    closed spec fn view(&self) -> FrameTimer {
        FrameTimer {
            interval: self.interval as nat,
            elapsed: self.elapsed as nat,
            just_finished: self.finished,
        }
    }
}

impl AnimationTimer {
    /// A repeating timer that fires every `interval` nanoseconds.
    pub fn repeating(interval: u64) -> (timer: AnimationTimer)
        ensures
            timer@ == FrameTimer::fresh(interval as nat),
    {
        AnimationTimer { interval, elapsed: 0, finished: false }
    }

    /// Lets `delta` nanoseconds pass.
    pub fn tick(&mut self, delta: u64)
        ensures
            final(self)@ == old(self)@.tick(delta as nat),
    {
        if self.elapsed >= self.interval || delta >= self.interval - self.elapsed {
            self.elapsed = 0;
            self.finished = true;
        } else {
            self.elapsed = self.elapsed + delta;
            self.finished = false;
        }
    }

    /// The time between two firings, in nanoseconds.
    pub fn interval(&self) -> (interval: u64)
        ensures
            interval as nat == self@.interval,
    {
        self.interval
    }

    /// The time accumulated since the timer last fired, in nanoseconds.
    pub fn elapsed(&self) -> (elapsed: u64)
        ensures
            elapsed as nat == self@.elapsed,
    {
        self.elapsed
    }

    /// Whether the last tick was one on which the timer fired.
    pub fn just_finished(&self) -> (fired: bool)
        ensures
            fired == self@.just_finished,
    {
        self.finished
    }
}

/// A flag reserved for restarting a clip from its first frame when the state
/// changes. Nothing reads it yet; it is carried along unchanged.
#[derive(Clone, Copy, Debug, PartialEq, Eq, Structural)]
pub struct AnimationResetFlag(pub bool);

/// What is drawn for an entity: a frame of the sprite sheet, mirrored or not.
#[derive(Clone, Copy, Debug, PartialEq, Eq, Structural)]
pub struct AtlasSprite {
    /// The frame cursor.
    pub index: usize,
    /// Whether the frame is drawn mirrored, that is facing left.
    pub flip_x: bool,
}

/// One animation step of an entity: lets `delta` nanoseconds pass on its
/// timer and, if the timer fires, moves the frame cursor one step on within
/// the clip `indices`.
pub fn animate_sprite(
    delta: u64,
    indices: &AnimationIndices,
    timer: &mut AnimationTimer,
    sprite: &mut AtlasSprite,
)
    ensures
        final(timer)@ == old(timer)@.tick(delta as nat),
        final(sprite).index as nat == (if final(timer)@.just_finished {
            indices@.next(old(sprite).index as nat)
        } else {
            old(sprite).index as nat
        }),
        final(sprite).flip_x == old(sprite).flip_x,
{
    timer.tick(delta);
    if timer.just_finished() {
        sprite.index = indices.next_index(sprite.index);
    }
}

} // verus!
