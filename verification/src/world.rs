//! The simulation world and the fixed-order tick.

use vstd::prelude::*;

verus! {

use crate::animation::{
    animate_sprite, animation_state_for, indices_for, sheet_switched, sprite_frame_advanced,
    switch_sprite_sheet, update_animation_state,
};
use crate::components::{
    timer_ticked, wf_entity, wf_obstacle, AnimationIndices, AnimationState, AnimationTimer,
    Entity, EntityModel, InputState, Obstacle, ObstacleModel, Sprite,
};
use crate::constants::{
    DT_LIMIT_MS, EXTENT_LIMIT, JUMP_FORCE, PLAYER_SPEED, RESOLVE_POS_LIMIT, SPEED_LIMIT,
    TIMER_INTERVAL_LIMIT_MS, WORLD_LIMIT,
};
use crate::math::{pos_within, Vec2, Vec2Model};
use crate::physics::{
    apply_gravity, apply_velocity, collision_pass, gravity_applied, handle_collision,
    obstacle_models, velocity_applied,
};
use crate::player::handle_input;

/// The view of every entity of a sequence.
pub open spec fn entity_models(s: Seq<Entity>) -> Seq<EntityModel> {
    s.map_values(|e: Entity| e@)
}

/// Indexing the viewed sequence is viewing the indexed entity.
pub proof fn lemma_entity_models_index(s: Seq<Entity>, i: int)
    requires
        0 <= i < s.len(),
    ensures
        entity_models(s).len() == s.len(),
        entity_models(s)[i] == s[i]@,
{
}

/// The whole state one simulation owns: the kinematic store, the static
/// obstacle set, and the controllable entity's animation and render state.
pub struct World {
    /// Every moving body; the controllable entity is one of them.
    pub entities: Vec<Entity>,
    /// The static geometry collisions are resolved against.
    pub obstacles: Vec<Obstacle>,
    /// Index of the controllable entity in `entities`.
    pub player_index: usize,
    /// Current animation mode of the controllable entity.
    pub animation_state: AnimationState,
    /// Frame range of the current animation mode.
    pub animation_indices: AnimationIndices,
    /// The repeating timer driving the frame advance.
    pub animation_timer: AnimationTimer,
    /// Render-facing pose of the controllable entity.
    pub sprite: Sprite,
}

/// The mathematical value of a [`World`].
#[verifier::ext_equal]
pub struct WorldModel {
    pub entities: Seq<EntityModel>,
    pub obstacles: Seq<ObstacleModel>,
    pub player_index: int,
    pub animation_state: AnimationState,
    pub animation_indices: AnimationIndices,
    pub animation_timer: AnimationTimer,
    pub sprite: Sprite,
}

impl View for World {
    type V = WorldModel;

    open spec fn view(&self) -> WorldModel {
        WorldModel {
            entities: entity_models(self.entities@),
            obstacles: obstacle_models(self.obstacles@),
            player_index: self.player_index as int,
            animation_state: self.animation_state,
            animation_indices: self.animation_indices,
            animation_timer: self.animation_timer,
            sprite: self.sprite,
        }
    }
}

/// A well-formed world: the player index is in range, every entity and
/// obstacle is well-formed, every position is within the world limit, and
/// the frame timer is sound.
pub open spec fn wf_world(w: WorldModel) -> bool {
    &&& 0 <= w.player_index < w.entities.len()
    &&& forall|i: int|
        0 <= i < w.entities.len() ==> wf_entity(#[trigger] w.entities[i]) && pos_within(
            w.entities[i].position,
            WORLD_LIMIT as int,
        )
    &&& forall|j: int| 0 <= j < w.obstacles.len() ==> wf_obstacle(#[trigger] w.obstacles[j])
    &&& w.animation_timer.wf()
}

/// The player's velocity after the input stage.
pub open spec fn input_velocity(v: Vec2Model, input: InputState) -> Vec2Model {
    Vec2Model {
        x: if input.move_left_held {
            -PLAYER_SPEED as int
        } else if input.move_right_held {
            PLAYER_SPEED as int
        } else {
            0
        },
        y: if input.jump_pressed {
            JUMP_FORCE as int
        } else {
            v.y
        },
    }
}

/// The sprite facing after the input stage.
pub open spec fn input_facing(flip_x: bool, input: InputState) -> bool {
    if input.move_left_held {
        true
    } else if input.move_right_held {
        false
    } else {
        flip_x
    }
}

/// One simulation tick in the canonical order: input, gravity, animation
/// state, sheet switch, position integration, collision resolution, frame
/// advance.
pub open spec fn tick_spec(w: WorldModel, input: InputState, dt_ms: int) -> WorldModel {
    let p0 = w.entities[w.player_index];
    let sprite1 = Sprite { flip_x: input_facing(w.sprite.flip_x, input), ..w.sprite };
    let entities1 = w.entities.update(
        w.player_index,
        EntityModel { velocity: input_velocity(p0.velocity, input), ..p0 },
    );
    let entities2 = entities1.map_values(|e: EntityModel| gravity_applied(e, dt_ms));
    let state2 = animation_state_for(entities2[w.player_index].velocity.x);
    let changed = state2 != w.animation_state;
    let indices2 = if changed {
        indices_for(state2)
    } else {
        w.animation_indices
    };
    let sprite2 = if changed {
        sheet_switched(state2, sprite1)
    } else {
        sprite1
    };
    let entities3 = entities2.map_values(|e: EntityModel| velocity_applied(e, dt_ms));
    let entities4 = entities3.map_values(|e: EntityModel| collision_pass(e, w.obstacles));
    let timer2 = timer_ticked(w.animation_timer, dt_ms);
    WorldModel {
        entities: entities4,
        obstacles: w.obstacles,
        player_index: w.player_index,
        animation_state: state2,
        animation_indices: indices2,
        animation_timer: timer2,
        sprite: sprite_frame_advanced(sprite2, indices2, timer2.finished),
    }
}

/// Advances the world by one frame of `dt_ms` milliseconds, running every
/// stage once in the canonical order.
pub fn tick(world: &mut World, input: InputState, dt_ms: u64)
    requires
        wf_world(old(world)@),
        dt_ms <= DT_LIMIT_MS,
    ensures
        final(world)@ == tick_spec(old(world)@, input, dt_ms as int),
        final(world)@.entities.len() == old(world)@.entities.len(),
        forall|i: int|
            0 <= i < final(world)@.entities.len() ==> wf_entity(
                #[trigger] final(world)@.entities[i],
            ) && pos_within(final(world)@.entities[i].position, RESOLVE_POS_LIMIT as int),
        final(world)@.animation_timer.wf(),
{
    let ghost w0 = world@;
    let ghost dt = dt_ms as int;

    // Input
    let pi = world.player_index;
    let mut p = world.entities[pi];
    handle_input(&mut p.velocity, &mut world.sprite, &input);
    world.entities[pi] = p;
    let ghost entities1 = w0.entities.update(
        w0.player_index,
        EntityModel { velocity: input_velocity(w0.entities[w0.player_index].velocity, input), ..w0.entities[w0.player_index] },
    );
    proof {
        assert(entity_models(world.entities@) =~= entities1);
        assert forall|i: int|
            0 <= i < world.entities@.len() implies wf_entity((#[trigger] world.entities@[i])@)
            && pos_within(world.entities@[i]@.position, WORLD_LIMIT as int) by {
            lemma_entity_models_index(world.entities@, i);
            assert(wf_entity(w0.entities[i]) && pos_within(
                w0.entities[i].position,
                WORLD_LIMIT as int,
            ));
        }
    }

    // Gravity
    apply_gravity(&mut world.entities, dt_ms);
    let ghost entities2 = entities1.map_values(|e: EntityModel| gravity_applied(e, dt));
    proof {
        assert(entity_models(world.entities@) =~= entities2);
        assert forall|i: int|
            0 <= i < world.entities@.len() implies pos_within(
            (#[trigger] world.entities@[i])@.position,
            WORLD_LIMIT as int,
        ) by {
            assert(world.entities@[i]@.position == entities1[i].position);
            assert(pos_within(entities1[i].position, WORLD_LIMIT as int));
        }
    }

    // Animation state
    let pv = world.entities[pi].velocity;
    let changed = update_animation_state(
        &pv,
        &mut world.animation_state,
        &mut world.animation_indices,
    );

    // Sprite sheet switch on a state transition
    if changed {
        switch_sprite_sheet(&world.animation_state, &mut world.sprite);
    }

    // Position integration
    apply_velocity(&mut world.entities, dt_ms);
    let ghost entities3 = entities2.map_values(|e: EntityModel| velocity_applied(e, dt));
    proof {
        assert(entity_models(world.entities@) =~= entities3);
    }

    // Collision resolution
    proof {
        assert forall|j: int|
            0 <= j < world.obstacles@.len() implies wf_obstacle(
            (#[trigger] world.obstacles@[j])@,
        ) by {
            assert(world.obstacles@[j]@ == obstacle_models(world.obstacles@)[j]);
            assert(wf_obstacle(w0.obstacles[j]));
        }
    }
    handle_collision(&mut world.entities, &world.obstacles);
    let ghost entities4 = entities3.map_values(
        |e: EntityModel| collision_pass(e, w0.obstacles),
    );
    proof {
        assert(entity_models(world.entities@) =~= entities4);
    }

    // Frame advance
    animate_sprite(
        dt_ms,
        &world.animation_indices,
        &mut world.animation_timer,
        &mut world.sprite,
    );

    proof {
        assert(world@ =~~= tick_spec(w0, input, dt));
    }
}

/// The pose the renderer consumes each frame: the controllable entity's
/// position, its facing (true for left), the current atlas frame (zero for
/// a plain image), and which sheet to draw.
pub fn player_pose(world: &World) -> (r: (Vec2, bool, usize, AnimationState))
    requires
        0 <= world@.player_index < world@.entities.len(),
    ensures
        r.0@ == world@.entities[world@.player_index].position,
        r.1 == world@.sprite.flip_x,
        r.2 as int == match world@.sprite.texture_atlas {
            Some(a) => a.index as int,
            None => 0,
        },
        r.3 == world@.sprite.sheet,
{
    proof {
        lemma_entity_models_index(world.entities@, world@.player_index);
    }
    let frame = match world.sprite.texture_atlas {
        Some(a) => a.index,
        None => 0,
    };
    (
        world.entities[world.player_index].position,
        world.sprite.flip_x,
        frame,
        world.sprite.sheet,
    )
}

/// Decides whether a world is well-formed, checking exactly the conditions
/// [`tick`] requires.
pub fn world_is_well_formed(world: &World) -> (r: bool)
    ensures
        r == wf_world(world@),
{
    if world.player_index >= world.entities.len() {
        return false;
    }
    let t = world.animation_timer;
    if !(0 < t.interval_ms && t.interval_ms <= TIMER_INTERVAL_LIMIT_MS && t.elapsed_ms
        < t.interval_ms) {
        return false;
    }
    let n = world.entities.len();
    let mut i: usize = 0;
    while i < n
        invariant
            n == world.entities@.len(),
            0 <= i <= n,
            forall|k: int|
                0 <= k < i ==> wf_entity(#[trigger] world@.entities[k]) && pos_within(
                    world@.entities[k].position,
                    WORLD_LIMIT as int,
                ),
        decreases n - i,
    {
        let e = world.entities[i];
        proof {
            assert(e@ == world@.entities[i as int]);
        }
        let extent_ok = match e.half_extent {
            Some(h) => 0 < h.x && h.x <= EXTENT_LIMIT && 0 < h.y && h.y <= EXTENT_LIMIT,
            None => true,
        };
        let velocity_ok = -SPEED_LIMIT <= e.velocity.x && e.velocity.x <= SPEED_LIMIT
            && -SPEED_LIMIT <= e.velocity.y && e.velocity.y <= SPEED_LIMIT;
        let position_ok = -WORLD_LIMIT <= e.position.x && e.position.x <= WORLD_LIMIT
            && -WORLD_LIMIT <= e.position.y && e.position.y <= WORLD_LIMIT;
        if !(extent_ok && velocity_ok && position_ok) {
            return false;
        }
        i = i + 1;
    }
    let m = world.obstacles.len();
    let mut j: usize = 0;
    while j < m
        invariant
            m == world.obstacles@.len(),
            0 <= j <= m,
            forall|k: int| 0 <= k < j ==> wf_obstacle(#[trigger] world@.obstacles[k]),
        decreases m - j,
    {
        let o = world.obstacles[j];
        proof {
            assert(o@ == world@.obstacles[j as int]);
        }
        let extent_ok = match o.half_extent {
            Some(h) => 0 < h.x && h.x <= EXTENT_LIMIT && 0 < h.y && h.y <= EXTENT_LIMIT,
            None => true,
        };
        let position_ok = -WORLD_LIMIT <= o.position.x && o.position.x <= WORLD_LIMIT
            && -WORLD_LIMIT <= o.position.y && o.position.y <= WORLD_LIMIT;
        if !(extent_ok && position_ok) {
            return false;
        }
        j = j + 1;
    }
    true
}

} // verus!
