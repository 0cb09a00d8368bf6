//! The data of the simulation: entities, obstacles, sprites, input state.

use vstd::prelude::*;

verus! {

use crate::constants::{EXTENT_LIMIT, SPEED_LIMIT, TIMER_INTERVAL_LIMIT_MS, WORLD_LIMIT};
use crate::math::{pos_within, Vec2, Vec2Model};

/// Directional collision semantics of a static obstacle. Exactly one tag per
/// obstacle.
#[derive(Clone, Copy, Debug, PartialEq, Eq, Structural)]
pub enum CollisionType {
    /// Blocks entry from above only (landing).
    Ground,
    /// Blocks entry from the side only (left or right).
    Wall,
    /// Blocks entry from below only (head bump).
    Ceiling,
    /// Blocks from all four directions.
    Solid,
}

/// Discrete animation mode of the controllable entity, derived from its
/// horizontal velocity.
#[derive(Clone, Copy, Debug, PartialEq, Eq, Structural)]
pub enum AnimationState {
    Idle,
    Walking,
}

/// First and last atlas frame of the current animation state.
#[derive(Clone, Copy, Debug, PartialEq, Eq, Structural)]
pub struct AnimationIndices {
    pub first: usize,
    pub last: usize,
}

/// A repeating timer driving the sprite-frame advance: accumulates elapsed
/// milliseconds and wraps each time it crosses its interval.
#[derive(Clone, Copy, Debug, PartialEq, Eq, Structural)]
pub struct AnimationTimer {
    /// Length of one timer period, in milliseconds.
    pub interval_ms: u64,
    /// Time accumulated into the current period, in milliseconds.
    pub elapsed_ms: u64,
    /// True when the most recent tick crossed the end of a period.
    pub finished: bool,
}

/// The sprite-frame state of a repeating timer after `dt_ms` more
/// milliseconds have elapsed.
pub open spec fn timer_ticked(t: AnimationTimer, dt_ms: int) -> AnimationTimer
    recommends
        t.wf(),
{
    AnimationTimer {
        interval_ms: t.interval_ms,
        elapsed_ms: ((t.elapsed_ms + dt_ms) % (t.interval_ms as int)) as u64,
        finished: t.elapsed_ms + dt_ms >= t.interval_ms,
    }
}

impl AnimationTimer {
    /// A positive interval no longer than a day, with the accumulator inside
    /// the current period.
    pub open spec fn wf(&self) -> bool {
        &&& 0 < self.interval_ms <= TIMER_INTERVAL_LIMIT_MS
        &&& self.elapsed_ms < self.interval_ms
    }

    /// A fresh repeating timer with the given period.
    pub fn from_millis(interval_ms: u64) -> (r: AnimationTimer)
        requires
            0 < interval_ms <= TIMER_INTERVAL_LIMIT_MS,
        ensures
            r.wf(),
            r.interval_ms == interval_ms,
            r.elapsed_ms == 0,
            !r.finished,
    {
        AnimationTimer { interval_ms, elapsed_ms: 0, finished: false }
    }

    /// Advances the timer by `dt_ms` milliseconds, wrapping at the interval.
    pub fn tick(&mut self, dt_ms: u64)
        requires
            old(self).wf(),
            dt_ms <= crate::constants::DT_LIMIT_MS,
        ensures
            *final(self) == timer_ticked(*old(self), dt_ms as int),
            final(self).wf(),
    {
        let total = self.elapsed_ms + dt_ms;
        self.finished = total >= self.interval_ms;
        self.elapsed_ms = total % self.interval_ms;
    }

    /// True when the most recent [`Self::tick`] crossed the end of a period.
    pub fn just_finished(&self) -> (r: bool)
        ensures
            r == self.finished,
    {
        self.finished
    }
}

/// Which atlas frame of the current sheet a sprite shows.
#[derive(Clone, Copy, Debug, PartialEq, Eq, Structural)]
pub struct TextureAtlas {
    pub index: usize,
}

/// Render-facing pose of the controllable entity: facing, sheet selector and
/// atlas frame. The selector tells the renderer which sheet to draw; the
/// core never touches pixel data.
#[derive(Clone, Copy, Debug, PartialEq, Eq, Structural)]
pub struct Sprite {
    /// True when the sprite faces left.
    pub flip_x: bool,
    /// Which sprite sheet the renderer should draw.
    pub sheet: AnimationState,
    /// Present for sprites cut from an atlas; absent for plain images.
    pub texture_atlas: Option<TextureAtlas>,
}

/// Raw input-device state for the small fixed set of logical actions, as
/// sampled once per tick by the host.
#[derive(Clone, Copy, Debug, PartialEq, Eq, Structural)]
pub struct InputState {
    /// The jump trigger was pressed this tick (edge, not hold).
    pub jump_pressed: bool,
    /// The move-left key is currently held.
    pub move_left_held: bool,
    /// The move-right key is currently held.
    pub move_right_held: bool,
}

/// A kinematic record: one moving body of the simulation.
#[derive(Clone, Copy, Debug, PartialEq, Eq, Structural)]
pub struct Entity {
    /// World-space center, in milliunits.
    pub position: Vec2,
    /// World units travelled per second, in milliunits per second.
    pub velocity: Vec2,
    /// Half the body's axis-aligned footprint, in milliunits; `None` while
    /// the geometry is not yet available, which skips the body in collision
    /// testing for the tick.
    pub half_extent: Option<Vec2>,
    /// True while the body rests on a landing-permitting surface; recomputed
    /// fully by every resolution pass.
    pub grounded: bool,
    /// True for bodies subject to gravity, integration and collision.
    pub physics_enabled: bool,
}

/// The mathematical value of an [`Entity`].
pub struct EntityModel {
    pub position: Vec2Model,
    pub velocity: Vec2Model,
    pub half_extent: Option<Vec2Model>,
    pub grounded: bool,
    pub physics_enabled: bool,
}

impl View for Entity {
    type V = EntityModel;

    open spec fn view(&self) -> EntityModel {
        EntityModel {
            position: self.position@,
            velocity: self.velocity@,
            half_extent: match self.half_extent {
                Some(h) => Some(h@),
                None => None,
            },
            grounded: self.grounded,
            physics_enabled: self.physics_enabled,
        }
    }
}

/// A static obstacle: geometry that never moves and is never resolved
/// against other obstacles.
#[derive(Clone, Copy, Debug, PartialEq, Eq, Structural)]
pub struct Obstacle {
    /// World-space center, in milliunits.
    pub position: Vec2,
    /// Half the obstacle's axis-aligned footprint, in milliunits; `None`
    /// while the geometry is not yet available, which skips the obstacle for
    /// the tick.
    pub half_extent: Option<Vec2>,
    /// Which directions of entry this obstacle blocks.
    pub collision_type: CollisionType,
}

/// The mathematical value of an [`Obstacle`].
pub struct ObstacleModel {
    pub position: Vec2Model,
    pub half_extent: Option<Vec2Model>,
    pub collision_type: CollisionType,
}

impl View for Obstacle {
    type V = ObstacleModel;

    open spec fn view(&self) -> ObstacleModel {
        ObstacleModel {
            position: self.position@,
            half_extent: match self.half_extent {
                Some(h) => Some(h@),
                None => None,
            },
            collision_type: self.collision_type,
        }
    }
}

/// Both components of a half-extent are positive and within the extent
/// limit.
pub open spec fn wf_extent(h: Vec2Model) -> bool {
    &&& 0 < h.x <= EXTENT_LIMIT
    &&& 0 < h.y <= EXTENT_LIMIT
}

/// A well-formed kinematic record: its geometry, when present, has positive
/// bounded half-extents, and its velocity is within the speed limit.
pub open spec fn wf_entity(e: EntityModel) -> bool {
    &&& match e.half_extent {
        Some(h) => wf_extent(h),
        None => true,
    }
    &&& -SPEED_LIMIT <= e.velocity.x <= SPEED_LIMIT
    &&& -SPEED_LIMIT <= e.velocity.y <= SPEED_LIMIT
}

/// A well-formed obstacle: bounded geometry at a bounded position.
pub open spec fn wf_obstacle(o: ObstacleModel) -> bool {
    &&& match o.half_extent {
        Some(h) => wf_extent(h),
        None => true,
    }
    &&& pos_within(o.position, WORLD_LIMIT as int)
}

/// Half of a visual footprint: the half-extent collision testing works
/// with, derived from the full width and height of a sprite.
pub fn half_extent_from_footprint(size: Vec2) -> (r: Vec2)
    requires
        0 <= size.x,
        0 <= size.y,
    ensures
        r@.x == size@.x / 2,
        r@.y == size@.y / 2,
{
    Vec2 { x: size.x / 2, y: size.y / 2 }
}

} // verus!
