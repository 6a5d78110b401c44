//! Sprite animation: a timer per entity that moves the shown cell one step
//! along a range each time a frame period has passed.

use crate::render::{Sprite, TextureAtlas};
use vstd::prelude::*;

verus! {

pub const NANOS_PER_SECOND: u64 = 1_000_000_000;

/// A timer that runs once. Time is counted in nanoseconds.
#[derive(Clone, Copy, Debug, PartialEq, Eq, Structural)]
pub struct Timer {
    /// The time after which the timer has finished.
    pub duration: u64,
    /// The time that has passed, never more than `duration` once finished.
    pub elapsed: u64,
    pub finished: bool,
    /// Whether the timer finished during the last tick.
    pub just_finished: bool,
}

/// The timer of the given duration before any time has passed.
pub open spec fn fresh_timer(duration: u64) -> Timer {
    Timer { duration, elapsed: 0, finished: false, just_finished: false }
}

/// The timer after `delta` more nanoseconds. A finished timer stays as it is;
/// a running one adds the time, without going past `u64::MAX`, and finishes
/// once the duration is reached.
pub open spec fn ticked(timer: Timer, delta: u64) -> Timer {
    if timer.finished {
        Timer { just_finished: false, ..timer }
    } else {
        let elapsed = if timer.elapsed + delta > u64::MAX {
            u64::MAX
        } else {
            (timer.elapsed + delta) as u64
        };
        if elapsed >= timer.duration {
            Timer {
                duration: timer.duration,
                elapsed: timer.duration,
                finished: true,
                just_finished: true,
            }
        } else {
            Timer { duration: timer.duration, elapsed, finished: false, just_finished: false }
        }
    }
}

impl Timer {
    pub fn new(duration: u64) -> (timer: Timer)
        ensures
            timer == fresh_timer(duration),
    {
        Timer { duration, elapsed: 0, finished: false, just_finished: false }
    }

    pub fn tick(&mut self, delta: u64)
        ensures
            *final(self) == ticked(*old(self), delta),
    {
        if self.finished {
            self.just_finished = false;
            return ;
        }
        let elapsed = self.elapsed.saturating_add(delta);
        if elapsed >= self.duration {
            self.elapsed = self.duration;
            self.finished = true;
            self.just_finished = true;
        } else {
            self.elapsed = elapsed;
            self.finished = false;
            self.just_finished = false;
        }
    }

    pub fn just_finished(&self) -> (just: bool)
        ensures
            just == self.just_finished,
    {
        self.just_finished
    }
}

/// The time between two frames at `fps` frames per second, in whole
/// nanoseconds.
pub open spec fn frame_period(fps: u8) -> u64
    recommends
        fps > 0,
{
    (NANOS_PER_SECOND / (fps as u64)) as u64
}

/// The range of cells that an entity cycles through, the speed at which it
/// does, and the timer that counts towards the next step.
#[derive(Clone, Copy, Debug, PartialEq, Eq, Structural)]
pub struct AnimationConfig {
    pub start: usize,
    pub stop: usize,
    pub fps: u8,
    pub timer: Timer,
}

/// The cell that follows `index`: the next one, or `start` after `stop`.
pub open spec fn next_index(index: usize, start: usize, stop: usize) -> usize {
    if index == stop {
        start
    } else {
        (index + 1) as usize
    }
}

/// A sprite with its animation.
#[derive(Clone, Copy, Debug, PartialEq, Eq, Structural)]
pub struct Animated {
    pub sprite: Sprite,
    pub config: AnimationConfig,
}

/// Whether one more tick can be taken: the frame rate is not zero, and the
/// cell after the current one can be counted.
pub open spec fn can_animate(entity: Animated) -> bool {
    &&& entity.config.fps > 0
    &&& entity.sprite.texture_atlas matches Some(atlas) ==> (atlas.index != entity.config.stop
        ==> atlas.index < usize::MAX)
}

/// The entity after `delta` more nanoseconds. When the timer finishes during
/// this tick and the sprite shows a cell, the sprite moves to the next cell
/// and the timer starts again; otherwise only the timer changes.
pub open spec fn animated(entity: Animated, delta: u64) -> Animated {
    let timer = ticked(entity.config.timer, delta);
    match entity.sprite.texture_atlas {
        Some(atlas) if timer.just_finished => Animated {
            sprite: Sprite {
                image: entity.sprite.image,
                texture_atlas: Some(
                    TextureAtlas {
                        layout: atlas.layout,
                        index: next_index(atlas.index, entity.config.start, entity.config.stop),
                    },
                ),
            },
            config: AnimationConfig {
                timer: fresh_timer(frame_period(entity.config.fps)),
                ..entity.config
            },
        },
        _ => Animated { sprite: entity.sprite, config: AnimationConfig { timer, ..entity.config } },
    }
}

impl AnimationConfig {
    /// The animation over the cells from `start` to `stop` at `fps` frames
    /// per second, with its timer at the start of a period.
    pub fn new(start: usize, stop: usize, fps: u8) -> (config: AnimationConfig)
        requires
            fps > 0,
        ensures
            config == (AnimationConfig {
                start,
                stop,
                fps,
                timer: fresh_timer(frame_period(fps)),
            }),
    {
        AnimationConfig { start, stop, fps, timer: Self::timer_from_fps(fps) }
    }

    /// A timer that finishes after one frame period.
    pub fn timer_from_fps(fps: u8) -> (timer: Timer)
        requires
            fps > 0,
        ensures
            timer == fresh_timer(frame_period(fps)),
    {
        Timer::new(NANOS_PER_SECOND / (fps as u64))
    }

    fn reset_timer(&mut self)
        requires
            old(self).fps > 0,
        ensures
            *final(self) == (AnimationConfig {
                timer: fresh_timer(frame_period(old(self).fps)),
                ..*old(self)
            }),
    {
        self.timer = AnimationConfig::timer_from_fps(self.fps);
    }
}

impl Animated {
    /// Lets `delta` nanoseconds pass for this entity.
    pub fn tick(&mut self, delta: u64)
        requires
            can_animate(*old(self)),
        ensures
            *final(self) == animated(*old(self), delta),
    {
        self.config.timer.tick(delta);
        if self.config.timer.just_finished() {
            match self.sprite.texture_atlas {
                None => {},
                Some(atlas) => {
                    let index = if atlas.index == self.config.stop {
                        self.config.start
                    } else {
                        atlas.index + 1
                    };
                    self.sprite.texture_atlas = Some(TextureAtlas { layout: atlas.layout, index });
                    self.config.reset_timer();
                },
            }
        }
    }
}

/// Lets `delta` nanoseconds pass for every entity of `query`.
pub fn execute_animations(delta: u64, query: &mut Vec<Animated>)
    requires
        forall|i: int| 0 <= i < old(query)@.len() ==> can_animate(#[trigger] old(query)@[i]),
    ensures
        final(query)@.len() == old(query)@.len(),
        forall|i: int|
            0 <= i < old(query)@.len() ==> #[trigger] final(query)@[i] == animated(
                old(query)@[i],
                delta,
            ),
{
    let mut i: usize = 0;
    while i < query.len()
        invariant
            i <= query@.len(),
            query@.len() == old(query)@.len(),
            forall|j: int| 0 <= j < i ==> #[trigger] query@[j] == animated(old(query)@[j], delta),
            forall|j: int| i <= j < query@.len() ==> #[trigger] query@[j] == old(query)@[j],
            forall|j: int| 0 <= j < old(query)@.len() ==> can_animate(#[trigger] old(query)@[j]),
        decreases query@.len() - i,
    {
        let mut entity = query[i];
        entity.tick(delta);
        query.set(i, entity);
        i += 1;
    }
}

/// The entity after `n` ticks of `delta` nanoseconds each.
pub open spec fn animated_n(entity: Animated, delta: u64, n: nat) -> Animated
    decreases n,
{
    if n == 0 {
        entity
    } else {
        animated(animated_n(entity, delta, (n - 1) as nat), delta)
    }
}

/// Whether the entity stands at the start of a frame period on a cell of its
/// range.
pub open spec fn in_cycle(entity: Animated) -> bool {
    &&& entity.config.fps > 0
    &&& entity.config.start <= entity.config.stop
    &&& entity.config.timer == fresh_timer(frame_period(entity.config.fps))
    &&& entity.sprite.texture_atlas matches Some(atlas) && entity.config.start <= atlas.index
        <= entity.config.stop
}

/// The cell that an entity in its cycle shows.
pub open spec fn shown_index(entity: Animated) -> usize {
    entity.sprite.texture_atlas->0.index
}

/// A tick that is shorter than what is left of the frame period moves no
/// cell: only the timer advances.
pub proof fn lemma_short_tick_keeps_the_cell(entity: Animated, delta: u64)
    requires
        !entity.config.timer.finished,
        entity.config.timer.elapsed + delta < entity.config.timer.duration,
    ensures
        animated(entity, delta).sprite == entity.sprite,
        animated(entity, delta).config.timer.elapsed == entity.config.timer.elapsed + delta,
{
}

/// A tick of a full frame period moves an entity in its cycle one cell on,
/// from the last cell of the range back to the first, and leaves it at the
/// start of the next period.
pub proof fn lemma_full_tick_steps_once(entity: Animated, delta: u64)
    requires
        in_cycle(entity),
        delta >= frame_period(entity.config.fps),
    ensures
        in_cycle(animated(entity, delta)),
        animated(entity, delta).config == entity.config,
        animated(entity, delta).sprite.image == entity.sprite.image,
        shown_index(animated(entity, delta)) == next_index(
            shown_index(entity),
            entity.config.start,
            entity.config.stop,
        ),
{
}

/// Ticks of a full frame period each walk an entity through its range again
/// and again: after `n` of them it shows the cell that lies `n` steps on,
/// counted around the range.
pub proof fn lemma_animation_cycles(entity: Animated, delta: u64, n: nat)
    requires
        in_cycle(entity),
        delta >= frame_period(entity.config.fps),
    ensures
        in_cycle(animated_n(entity, delta, n)),
        animated_n(entity, delta, n).config == entity.config,
        shown_index(animated_n(entity, delta, n)) == entity.config.start + (shown_index(entity)
            - entity.config.start + n) % (entity.config.stop - entity.config.start + 1),
    decreases n,
{
    let start = entity.config.start as int;
    let len = entity.config.stop - entity.config.start + 1;
    let offset = shown_index(entity) - start;
    if n == 0 {
        vstd::arithmetic::div_mod::lemma_small_mod(offset as nat, len as nat);
    } else {
        let before = animated_n(entity, delta, (n - 1) as nat);
        lemma_animation_cycles(entity, delta, (n - 1) as nat);
        lemma_full_tick_steps_once(before, delta);
        let k = (offset + n - 1) % len;
        assert(shown_index(before) == start + k);
        vstd::arithmetic::div_mod::lemma_mod_bound(offset + n - 1, len);
        vstd::arithmetic::div_mod::lemma_add_mod_noop(offset + n - 1, 1, len);
        if len == 1 {
            vstd::arithmetic::div_mod::lemma_mod_bound(offset + n, len);
        } else {
            vstd::arithmetic::div_mod::lemma_small_mod(1, len as nat);
            if k + 1 == len {
                vstd::arithmetic::div_mod::lemma_mod_self_0(len);
            } else {
                vstd::arithmetic::div_mod::lemma_small_mod((k + 1) as nat, len as nat);
            }
        }
    }
}

} // verus!
