//! Mapping raw input-device state onto the controllable entity.

use vstd::prelude::*;

verus! {

use crate::components::{InputState, Sprite};
use crate::constants::{JUMP_FORCE, PLAYER_SPEED};
use crate::math::Vec2;

/// Applies one tick of input to the controllable entity's velocity and
/// facing. A jump trigger edge sets the upward jump velocity
/// unconditionally (no grounded check). Move-left wins over a simultaneous
/// move-right; with neither held the horizontal velocity is zeroed and the
/// facing keeps its previous value.
pub fn handle_input(velocity: &mut Vec2, sprite: &mut Sprite, input: &InputState)
    ensures
        final(velocity)@.y == if input.jump_pressed {
            JUMP_FORCE as int
        } else {
            old(velocity)@.y
        },
        final(velocity)@.x == if input.move_left_held {
            -PLAYER_SPEED as int
        } else if input.move_right_held {
            PLAYER_SPEED as int
        } else {
            0
        },
        final(sprite).flip_x == if input.move_left_held {
            true
        } else if input.move_right_held {
            false
        } else {
            old(sprite).flip_x
        },
        final(sprite).sheet == old(sprite).sheet,
        final(sprite).texture_atlas == old(sprite).texture_atlas,
{
    // Jump
    if input.jump_pressed {
        velocity.y = JUMP_FORCE;
    }

    // Horizontal movement
    if input.move_left_held {
        velocity.x = -PLAYER_SPEED;
        sprite.flip_x = true;
    } else if input.move_right_held {
        velocity.x = PLAYER_SPEED;
        sprite.flip_x = false;
    } else {
        velocity.x = 0;
    }
}

} // verus!
