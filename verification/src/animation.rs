//! The derived animation state machine and the sprite-frame advance.

use vstd::prelude::*;

verus! {

use crate::components::{
    timer_ticked, AnimationIndices, AnimationState, AnimationTimer, Sprite, TextureAtlas,
};
use crate::constants::{DT_LIMIT_MS, WALK_ANIMATION_THRESHOLD};
use crate::math::{int_abs, Vec2};

/// The animation state a horizontal velocity selects: `Walking` above the
/// walk threshold, `Idle` at or below it.
pub open spec fn animation_state_for(vx: int) -> AnimationState {
    if int_abs(vx) > WALK_ANIMATION_THRESHOLD as int {
        AnimationState::Walking
    } else {
        AnimationState::Idle
    }
}

/// The frame range a state starts with: both sheets begin at their first
/// atlas frame and run through the fourth.
pub open spec fn indices_for(s: AnimationState) -> AnimationIndices {
    match s {
        AnimationState::Idle => AnimationIndices { first: 0usize, last: 3usize },
        AnimationState::Walking => AnimationIndices { first: 0usize, last: 3usize },
    }
}

/// Derives the animation state from the horizontal velocity. On a
/// transition, the frame range is reset to the new state's; without one,
/// state and range are left untouched. Returns whether a transition
/// happened, which tells the caller to switch sprite sheets.
pub fn update_animation_state(
    velocity: &Vec2,
    state: &mut AnimationState,
    indices: &mut AnimationIndices,
) -> (changed: bool)
    requires
        velocity.x > i64::MIN,
    ensures
        *final(state) == animation_state_for(velocity@.x),
        changed == (*old(state) != animation_state_for(velocity@.x)),
        *final(indices) == if changed {
            indices_for(*final(state))
        } else {
            *old(indices)
        },
{
    let magnitude = if velocity.x < 0 {
        -velocity.x
    } else {
        velocity.x
    };
    let new_state = if magnitude > WALK_ANIMATION_THRESHOLD {
        AnimationState::Walking
    } else {
        AnimationState::Idle
    };

    if *state != new_state {
        *state = new_state;

        match new_state {
            AnimationState::Idle => {
                indices.first = 0;
                indices.last = 3;
            }
            AnimationState::Walking => {
                indices.first = 0;
                indices.last = 3;
            }
        }
        true
    } else {
        false
    }
}

/// The sprite after switching to a state's sheet: the sheet selector takes
/// the new state and an atlas-backed sprite restarts at frame zero.
pub open spec fn sheet_switched(state: AnimationState, s: Sprite) -> Sprite {
    Sprite {
        sheet: state,
        texture_atlas: match s.texture_atlas {
            Some(_) => Some(TextureAtlas { index: 0usize }),
            None => None,
        },
        ..s
    }
}

/// Points the sprite at the sheet of the given animation state and restarts
/// the atlas at its first frame. Called on a state transition.
pub fn switch_sprite_sheet(state: &AnimationState, sprite: &mut Sprite)
    ensures
        *final(sprite) == sheet_switched(*state, *old(sprite)),
{
    sprite.sheet = *state;
    match &mut sprite.texture_atlas {
        Some(atlas) => {
            atlas.index = 0;
        }
        None => {}
    }
}

/// The next atlas frame: one past the current frame, wrapping from the last
/// frame of the range back to the first.
pub open spec fn advanced_index(index: int, first: int, last: int) -> int {
    if index >= last {
        first
    } else {
        index + 1
    }
}

/// The sprite after one frame advance: when the timer finished a period
/// this tick, an atlas-backed sprite steps to the next frame of the range.
pub open spec fn sprite_frame_advanced(s: Sprite, ind: AnimationIndices, finished: bool) -> Sprite {
    if finished {
        match s.texture_atlas {
            Some(a) => Sprite {
                texture_atlas: Some(
                    TextureAtlas {
                        index: advanced_index(
                            a.index as int,
                            ind.first as int,
                            ind.last as int,
                        ) as usize,
                    },
                ),
                ..s
            },
            None => s,
        }
    } else {
        s
    }
}

/// Advances the repeating frame timer and, each time it finishes a period,
/// steps an atlas-backed sprite cyclically through the frame range.
pub fn animate_sprite(
    dt_ms: u64,
    indices: &AnimationIndices,
    timer: &mut AnimationTimer,
    sprite: &mut Sprite,
)
    requires
        old(timer).wf(),
        dt_ms <= DT_LIMIT_MS,
    ensures
        *final(timer) == timer_ticked(*old(timer), dt_ms as int),
        final(timer).wf(),
        *final(sprite) == sprite_frame_advanced(*old(sprite), *indices, final(timer).finished),
{
    timer.tick(dt_ms);

    if timer.just_finished() {
        match &mut sprite.texture_atlas {
            Some(atlas) => {
                atlas.index = if atlas.index >= indices.last {
                    indices.first
                } else {
                    atlas.index + 1
                };
            }
            None => {}
        }
    }
}

} // verus!
