//! Tests for the animation state machine, sheet switching and the frame
//! timer.

use platformer::animation::{animate_sprite, switch_sprite_sheet, update_animation_state};
use platformer::components::{
    AnimationIndices, AnimationState, AnimationTimer, Sprite, TextureAtlas,
};
use platformer::math::Vec2;

fn atlas_sprite(index: usize) -> Sprite {
    Sprite {
        flip_x: false,
        sheet: AnimationState::Idle,
        texture_atlas: Some(TextureAtlas { index }),
    }
}

/// A horizontal speed below the walk threshold keeps the state `Idle`, and
/// brings a `Walking` state back to `Idle`.
#[test]
fn slow_speed_stays_idle() {
    // 0.05 world units per second: below the 0.1 threshold.
    let velocity = Vec2 { x: 50, y: 0 };

    let mut state = AnimationState::Idle;
    let mut indices = AnimationIndices { first: 0, last: 3 };
    let changed = update_animation_state(&velocity, &mut state, &mut indices);
    assert_eq!(state, AnimationState::Idle);
    assert!(!changed);

    let mut state = AnimationState::Walking;
    let changed = update_animation_state(&velocity, &mut state, &mut indices);
    assert_eq!(state, AnimationState::Idle);
    assert!(changed);
}

/// A horizontal speed above the threshold, in either direction, selects
/// `Walking` and resets the frame range.
#[test]
fn fast_speed_walks() {
    let mut state = AnimationState::Idle;
    let mut indices = AnimationIndices { first: 7, last: 9 };

    let changed = update_animation_state(&Vec2 { x: -200_000, y: 0 }, &mut state, &mut indices);
    assert!(changed);
    assert_eq!(state, AnimationState::Walking);
    assert_eq!(indices, AnimationIndices { first: 0, last: 3 });

    // Already walking: rightward speed keeps the state, reports no change.
    let changed = update_animation_state(&Vec2 { x: 200_000, y: 0 }, &mut state, &mut indices);
    assert!(!changed);
    assert_eq!(state, AnimationState::Walking);
}

/// Switching sheets points the sprite at the new state's sheet and
/// restarts an atlas-backed sprite at its first frame.
#[test]
fn switch_sprite_sheet_resets_frame() {
    let mut sprite = atlas_sprite(2);
    switch_sprite_sheet(&AnimationState::Walking, &mut sprite);
    assert_eq!(sprite.sheet, AnimationState::Walking);
    assert_eq!(sprite.texture_atlas, Some(TextureAtlas { index: 0 }));

    let mut plain = Sprite {
        flip_x: false,
        sheet: AnimationState::Idle,
        texture_atlas: None,
    };
    switch_sprite_sheet(&AnimationState::Walking, &mut plain);
    assert_eq!(plain.sheet, AnimationState::Walking);
    assert_eq!(plain.texture_atlas, None);
}

/// The repeating timer reports a finish exactly when a period is crossed
/// and keeps the remainder.
#[test]
fn timer_wraps_and_reports_finished() {
    let mut timer = AnimationTimer::from_millis(100);
    timer.tick(60);
    assert!(!timer.just_finished());
    assert_eq!(timer.elapsed_ms, 60);

    timer.tick(60);
    assert!(timer.just_finished());
    assert_eq!(timer.elapsed_ms, 20);

    timer.tick(30);
    assert!(!timer.just_finished());
    assert_eq!(timer.elapsed_ms, 50);
}

/// Each finished period advances the atlas frame once, wrapping from the
/// last frame of the range back to the first.
#[test]
fn animate_sprite_cycles_frames() {
    let indices = AnimationIndices { first: 0, last: 3 };
    let mut timer = AnimationTimer::from_millis(100);
    let mut sprite = atlas_sprite(2);

    // No period finished: the frame stands.
    animate_sprite(40, &indices, &mut timer, &mut sprite);
    assert_eq!(sprite.texture_atlas, Some(TextureAtlas { index: 2 }));

    // Finishes a period: 2 advances to 3.
    animate_sprite(60, &indices, &mut timer, &mut sprite);
    assert_eq!(sprite.texture_atlas, Some(TextureAtlas { index: 3 }));

    // Finishes another: 3 wraps to 0.
    animate_sprite(100, &indices, &mut timer, &mut sprite);
    assert_eq!(sprite.texture_atlas, Some(TextureAtlas { index: 0 }));
}
