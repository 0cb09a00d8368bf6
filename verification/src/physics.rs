//! Gravity, Euler integration, and directional collision resolution.

use vstd::prelude::*;

verus! {

use crate::components::{
    wf_entity, wf_obstacle, CollisionType, Entity, EntityModel, Obstacle, ObstacleModel,
};
use crate::constants::{
    DT_LIMIT_MS, EXTENT_LIMIT, GRAVITY, MAX_FALL_SPEED, RESOLVE_POS_LIMIT, SPEED_LIMIT,
    WORLD_LIMIT,
};
use crate::math::{
    int_abs, int_max, pos_within, scale_by_millis, scaled_by_millis, Vec2, Vec2Model,
};

/// Signed penetration depth of two centered intervals: the sum of the half
/// widths minus the distance of the centers. Positive means intersecting.
pub open spec fn overlap_on_axis(center_a: int, half_a: int, center_b: int, half_b: int) -> int {
    (half_a + half_b) - int_abs(center_a - center_b)
}

/// Penetration of entity `e` and obstacle `o` along the X axis.
pub open spec fn spec_overlap_x(e: EntityModel, o: ObstacleModel) -> int
    recommends
        e.half_extent is Some,
        o.half_extent is Some,
{
    overlap_on_axis(
        o.position.x,
        o.half_extent->Some_0.x,
        e.position.x,
        e.half_extent->Some_0.x,
    )
}

/// Penetration of entity `e` and obstacle `o` along the Y axis.
pub open spec fn spec_overlap_y(e: EntityModel, o: ObstacleModel) -> int
    recommends
        e.half_extent is Some,
        o.half_extent is Some,
{
    overlap_on_axis(
        o.position.y,
        o.half_extent->Some_0.y,
        e.position.y,
        e.half_extent->Some_0.y,
    )
}

/// The entity after testing and, where the obstacle's tag permits, resolving
/// one collision. The axis with the smaller overlap is the resolution axis;
/// a tag that does not block the chosen direction leaves the entity exactly
/// as it was.
pub open spec fn resolve_one(e: EntityModel, o: ObstacleModel) -> EntityModel {
    match (e.half_extent, o.half_extent) {
        (Some(eh), Some(oh)) => {
            let ox = spec_overlap_x(e, o);
            let oy = spec_overlap_y(e, o);
            if ox <= 0 || oy <= 0 {
                e
            } else if ox < oy {
                if o.collision_type == CollisionType::Wall || o.collision_type
                    == CollisionType::Solid {
                    let nx = if e.position.x < o.position.x {
                        e.position.x - ox
                    } else {
                        e.position.x + ox
                    };
                    EntityModel {
                        position: Vec2Model { x: nx, y: e.position.y },
                        velocity: Vec2Model { x: 0, y: e.velocity.y },
                        ..e
                    }
                } else {
                    e
                }
            } else {
                if e.position.y < o.position.y {
                    if o.collision_type == CollisionType::Ceiling || o.collision_type
                        == CollisionType::Solid {
                        EntityModel {
                            position: Vec2Model { x: e.position.x, y: e.position.y - oy },
                            velocity: Vec2Model { x: e.velocity.x, y: 0 },
                            ..e
                        }
                    } else {
                        e
                    }
                } else {
                    if o.collision_type == CollisionType::Ground || o.collision_type
                        == CollisionType::Solid {
                        EntityModel {
                            position: Vec2Model { x: e.position.x, y: e.position.y + oy },
                            velocity: Vec2Model { x: e.velocity.x, y: 0 },
                            grounded: true,
                            ..e
                        }
                    } else {
                        e
                    }
                }
            }
        },
        _ => e,
    }
}

/// The entity after resolving, in order, against the first `n` obstacles of
/// the sequence.
pub open spec fn resolve_prefix(e: EntityModel, obs: Seq<ObstacleModel>, n: int) -> EntityModel
    decreases n,
{
    if n <= 0 {
        e
    } else {
        resolve_one(resolve_prefix(e, obs, n - 1), obs[n - 1])
    }
}

/// One full resolution pass over an entity: `grounded` is reset to false,
/// then (for a physics-enabled entity with available geometry) every
/// obstacle is tested and resolved in sequence order. An entity without
/// geometry is skipped for the tick, its `grounded` flag left reset.
pub open spec fn collision_pass(e: EntityModel, obs: Seq<ObstacleModel>) -> EntityModel {
    if !e.physics_enabled {
        e
    } else {
        let start = EntityModel { grounded: false, ..e };
        if e.half_extent is Some {
            resolve_prefix(start, obs, obs.len() as int)
        } else {
            start
        }
    }
}

/// The view of every obstacle of a sequence.
pub open spec fn obstacle_models(s: Seq<Obstacle>) -> Seq<ObstacleModel> {
    s.map_values(|o: Obstacle| o@)
}

/// Vertical velocity after one gravity application: accelerated downward
/// for `dt_ms` milliseconds, then clamped to the terminal fall speed.
pub open spec fn gravity_clamped_vy(vy: int, dt_ms: int) -> int {
    int_max(MAX_FALL_SPEED as int, vy + scaled_by_millis(GRAVITY as int, dt_ms))
}

/// An entity after one gravity application: only the vertical velocity of a
/// physics-enabled entity changes.
pub open spec fn gravity_applied(e: EntityModel, dt_ms: int) -> EntityModel {
    if e.physics_enabled {
        EntityModel {
            velocity: Vec2Model { x: e.velocity.x, y: gravity_clamped_vy(e.velocity.y, dt_ms) },
            ..e
        }
    } else {
        e
    }
}

/// An entity after one Euler position step: a physics-enabled entity moves
/// by its velocity times the elapsed time.
pub open spec fn velocity_applied(e: EntityModel, dt_ms: int) -> EntityModel {
    if e.physics_enabled {
        EntityModel {
            position: Vec2Model {
                x: e.position.x + scaled_by_millis(e.velocity.x, dt_ms),
                y: e.position.y + scaled_by_millis(e.velocity.y, dt_ms),
            },
            ..e
        }
    } else {
        e
    }
}

/// Vertical velocity after a whole run of gravity applications, one per
/// elapsed-time sample of the sequence.
pub open spec fn gravity_iterated_vy(vy: int, dts: Seq<int>) -> int
    decreases dts.len(),
{
    if dts.len() == 0 {
        vy
    } else {
        gravity_clamped_vy(gravity_iterated_vy(vy, dts.drop_last()), dts.last())
    }
}

/// Law: whatever the initial vertical velocity and however many gravity
/// applications follow, at least one application leaves the velocity at or
/// above the terminal fall speed — gravity alone never drives an entity
/// below it.
pub proof fn lemma_terminal_fall_speed(vy: int, dts: Seq<int>)
    requires
        dts.len() >= 1,
    ensures
        gravity_iterated_vy(vy, dts) >= MAX_FALL_SPEED as int,
{
}

/// Law: one permitted resolution separates the boxes on the resolved axis.
/// After a horizontal correction against a wall or solid, or a vertical
/// correction against a permitting surface, re-testing the overlap on that
/// axis yields no remaining penetration.
pub proof fn lemma_separation_idempotent(e: EntityModel, o: ObstacleModel)
    requires
        e.half_extent is Some,
        o.half_extent is Some,
        spec_overlap_x(e, o) > 0,
        spec_overlap_y(e, o) > 0,
    ensures
        spec_overlap_x(e, o) < spec_overlap_y(e, o) && (o.collision_type == CollisionType::Wall
            || o.collision_type == CollisionType::Solid) ==> spec_overlap_x(resolve_one(e, o), o)
            <= 0,
        spec_overlap_x(e, o) >= spec_overlap_y(e, o) && e.position.y < o.position.y
            && (o.collision_type == CollisionType::Ceiling || o.collision_type
            == CollisionType::Solid) ==> spec_overlap_y(resolve_one(e, o), o) <= 0,
        spec_overlap_x(e, o) >= spec_overlap_y(e, o) && e.position.y >= o.position.y
            && (o.collision_type == CollisionType::Ground || o.collision_type
            == CollisionType::Solid) ==> spec_overlap_y(resolve_one(e, o), o) <= 0,
{
}

/// Law: a `Ground`-tagged obstacle never halts horizontal motion — no
/// X-axis correction is ever applied against it.
pub proof fn lemma_ground_never_blocks_horizontal(e: EntityModel, o: ObstacleModel)
    requires
        o.collision_type == CollisionType::Ground,
    ensures
        resolve_one(e, o).position.x == e.position.x,
        resolve_one(e, o).velocity.x == e.velocity.x,
{
}

/// The qualifying landing: the boxes intersect, the vertical overlap is
/// the smaller, the entity is at or above the obstacle, and the obstacle
/// permits landing.
pub open spec fn landing_applies(e: EntityModel, o: ObstacleModel) -> bool {
    &&& e.half_extent is Some
    &&& o.half_extent is Some
    &&& spec_overlap_x(e, o) > 0
    &&& spec_overlap_y(e, o) > 0
    &&& spec_overlap_x(e, o) >= spec_overlap_y(e, o)
    &&& e.position.y >= o.position.y
    &&& (o.collision_type == CollisionType::Ground || o.collision_type == CollisionType::Solid)
}

/// Law: resolving against one obstacle reports the entity grounded exactly
/// when it already was, or when this obstacle took a qualifying landing.
/// In particular a `Wall`-tagged obstacle never sets `grounded`.
pub proof fn lemma_grounded_only_by_landing(e: EntityModel, o: ObstacleModel)
    ensures
        resolve_one(e, o).grounded == (e.grounded || landing_applies(e, o)),
{
}

/// Law: a `Wall`-tagged obstacle never sets `grounded` — it can halt
/// sideways motion, but it is no surface to rest on.
pub proof fn lemma_wall_never_grounds(e: EntityModel, o: ObstacleModel)
    requires
        o.collision_type == CollisionType::Wall,
    ensures
        resolve_one(e, o).grounded == e.grounded,
{
}

proof fn lemma_no_landing_prefix(e: EntityModel, obs: Seq<ObstacleModel>, n: int)
    requires
        !e.grounded,
        0 <= n <= obs.len(),
        forall|j: int|
            0 <= j < obs.len() ==> (#[trigger] obs[j]).collision_type != CollisionType::Ground
                && obs[j].collision_type != CollisionType::Solid,
    ensures
        !resolve_prefix(e, obs, n).grounded,
    decreases n,
{
    if n > 0 {
        lemma_no_landing_prefix(e, obs, n - 1);
        lemma_grounded_only_by_landing(resolve_prefix(e, obs, n - 1), obs[n - 1]);
    }
}

/// Law: `grounded` is reset at the start of a resolution pass and set only
/// by a qualifying landing, so a pass over obstacles none of which is
/// `Ground`- or `Solid`-tagged leaves every entity ungrounded.
pub proof fn lemma_no_landing_surface_no_grounded(e: EntityModel, obs: Seq<ObstacleModel>)
    requires
        e.physics_enabled,
        forall|j: int|
            0 <= j < obs.len() ==> (#[trigger] obs[j]).collision_type != CollisionType::Ground
                && obs[j].collision_type != CollisionType::Solid,
    ensures
        !collision_pass(e, obs).grounded,
{
    let start = EntityModel { grounded: false, ..e };
    lemma_no_landing_prefix(start, obs, obs.len() as int);
}

/// Advances the vertical velocity of every physics-enabled entity by
/// gravity, clamped to the terminal fall speed.
pub fn apply_gravity(entities: &mut Vec<Entity>, dt_ms: u64)
    requires
        dt_ms <= DT_LIMIT_MS,
        forall|i: int| 0 <= i < old(entities)@.len() ==> wf_entity(#[trigger] old(entities)@[i]@),
    ensures
        final(entities)@.len() == old(entities)@.len(),
        forall|i: int|
            0 <= i < old(entities)@.len() ==> (#[trigger] final(entities)@[i])@ == gravity_applied(
                old(entities)@[i]@,
                dt_ms as int,
            ),
        forall|i: int| 0 <= i < final(entities)@.len() ==> wf_entity(#[trigger] final(entities)@[i]@),
{
    let n = entities.len();
    let mut i: usize = 0;
    while i < n
        invariant
            n == entities@.len() == old(entities)@.len(),
            dt_ms <= DT_LIMIT_MS,
            0 <= i <= n,
            forall|k: int| 0 <= k < n ==> wf_entity(#[trigger] old(entities)@[k]@),
            forall|k: int| i <= k < n ==> #[trigger] entities@[k] == old(entities)@[k],
            forall|k: int|
                0 <= k < i ==> (#[trigger] entities@[k])@ == gravity_applied(
                    old(entities)@[k]@,
                    dt_ms as int,
                ),
            forall|k: int| 0 <= k < i ==> wf_entity(#[trigger] entities@[k]@),
        decreases n - i,
    {
        let mut e = entities[i];
        if e.physics_enabled {
            let delta = scale_by_millis(GRAVITY, dt_ms);
            let fallen = e.velocity.y + delta;
            e.velocity.y = if fallen < MAX_FALL_SPEED {
                MAX_FALL_SPEED
            } else {
                fallen
            };
            entities[i] = e;
        }
        i = i + 1;
    }
}

/// Moves every physics-enabled entity by its velocity times the elapsed
/// time. A plain Euler step: no sub-stepping, so a fast entity may tunnel
/// through a thin obstacle.
pub fn apply_velocity(entities: &mut Vec<Entity>, dt_ms: u64)
    requires
        dt_ms <= DT_LIMIT_MS,
        forall|i: int| 0 <= i < old(entities)@.len() ==> wf_entity(#[trigger] old(entities)@[i]@),
        forall|i: int|
            0 <= i < old(entities)@.len() ==> pos_within(
                (#[trigger] old(entities)@[i])@.position,
                WORLD_LIMIT as int,
            ),
    ensures
        final(entities)@.len() == old(entities)@.len(),
        forall|i: int|
            0 <= i < old(entities)@.len() ==> (#[trigger] final(entities)@[i])@ == velocity_applied(
                old(entities)@[i]@,
                dt_ms as int,
            ),
        forall|i: int| 0 <= i < final(entities)@.len() ==> wf_entity(#[trigger] final(entities)@[i]@),
        forall|i: int|
            0 <= i < final(entities)@.len() ==> pos_within(
                (#[trigger] final(entities)@[i])@.position,
                WORLD_LIMIT as int + SPEED_LIMIT as int,
            ),
    {
    let n = entities.len();
    let mut i: usize = 0;
    while i < n
        invariant
            n == entities@.len() == old(entities)@.len(),
            dt_ms <= DT_LIMIT_MS,
            0 <= i <= n,
            forall|k: int| 0 <= k < n ==> wf_entity(#[trigger] old(entities)@[k]@),
            forall|k: int|
                0 <= k < n ==> pos_within(
                    (#[trigger] old(entities)@[k])@.position,
                    WORLD_LIMIT as int,
                ),
            forall|k: int| i <= k < n ==> #[trigger] entities@[k] == old(entities)@[k],
            forall|k: int|
                0 <= k < i ==> (#[trigger] entities@[k])@ == velocity_applied(
                    old(entities)@[k]@,
                    dt_ms as int,
                ),
            forall|k: int| 0 <= k < i ==> wf_entity(#[trigger] entities@[k]@),
            forall|k: int|
                0 <= k < i ==> pos_within(
                    (#[trigger] entities@[k])@.position,
                    WORLD_LIMIT as int + SPEED_LIMIT as int,
                ),
        decreases n - i,
    {
        let mut e = entities[i];
        if e.physics_enabled {
            let dx = scale_by_millis(e.velocity.x, dt_ms);
            let dy = scale_by_millis(e.velocity.y, dt_ms);
            e.position.x = e.position.x + dx;
            e.position.y = e.position.y + dy;
            entities[i] = e;
        }
        i = i + 1;
    }
}

/// Penetration depths of two axis-aligned boxes, obstacle `a` against
/// entity `b`: `Some` exactly when the boxes intersect on both axes.
pub fn check_overlap(
    half_width_a: i64,
    half_width_b: i64,
    half_height_a: i64,
    half_height_b: i64,
    pos_a: Vec2,
    pos_b: Vec2,
) -> (r: Option<(i64, i64)>)
    requires
        0 <= half_width_a <= EXTENT_LIMIT,
        0 <= half_width_b <= EXTENT_LIMIT,
        0 <= half_height_a <= EXTENT_LIMIT,
        0 <= half_height_b <= EXTENT_LIMIT,
        pos_within(pos_a@, RESOLVE_POS_LIMIT as int),
        pos_within(pos_b@, RESOLVE_POS_LIMIT as int),
    ensures
        (r is Some) == (overlap_on_axis(pos_a@.x, half_width_a as int, pos_b@.x, half_width_b as int)
            > 0 && overlap_on_axis(pos_a@.y, half_height_a as int, pos_b@.y, half_height_b as int)
            > 0),
        r matches Some(p) ==> p.0 == overlap_on_axis(
            pos_a@.x,
            half_width_a as int,
            pos_b@.x,
            half_width_b as int,
        ) && p.1 == overlap_on_axis(pos_a@.y, half_height_a as int, pos_b@.y, half_height_b as int),
{
    let dx = pos_a.x - pos_b.x;
    let adx = if dx < 0 {
        -dx
    } else {
        dx
    };
    let overlap_x = (half_width_a + half_width_b) - adx;

    let dy = pos_a.y - pos_b.y;
    let ady = if dy < 0 {
        -dy
    } else {
        dy
    };
    let overlap_y = (half_height_a + half_height_b) - ady;

    if overlap_x > 0 && overlap_y > 0 {
        Some((overlap_x, overlap_y))
    } else {
        None
    }
}

/// One full resolution pass: for every physics-enabled entity, `grounded`
/// is reset, every obstacle is tested in order, and the axis of smaller
/// penetration is corrected where the obstacle's tag permits. Obstacles are
/// processed sequentially, so a correction changes the position seen by the
/// next test.
pub fn handle_collision(entities: &mut Vec<Entity>, obstacles: &Vec<Obstacle>)
    requires
        forall|i: int| 0 <= i < old(entities)@.len() ==> wf_entity(#[trigger] old(entities)@[i]@),
        forall|i: int|
            0 <= i < old(entities)@.len() ==> pos_within(
                (#[trigger] old(entities)@[i])@.position,
                RESOLVE_POS_LIMIT as int,
            ),
        forall|j: int| 0 <= j < obstacles@.len() ==> wf_obstacle(#[trigger] obstacles@[j]@),
    ensures
        final(entities)@.len() == old(entities)@.len(),
        forall|i: int|
            0 <= i < old(entities)@.len() ==> (#[trigger] final(entities)@[i])@ == collision_pass(
                old(entities)@[i]@,
                obstacle_models(obstacles@),
            ),
        forall|i: int| 0 <= i < final(entities)@.len() ==> wf_entity(#[trigger] final(entities)@[i]@),
        forall|i: int|
            0 <= i < final(entities)@.len() ==> pos_within(
                (#[trigger] final(entities)@[i])@.position,
                RESOLVE_POS_LIMIT as int,
            ),
{
    let ghost obs_models = obstacle_models(obstacles@);
    let n = entities.len();
    let mut i: usize = 0;
    while i < n
        invariant
            n == entities@.len() == old(entities)@.len(),
            obs_models == obstacle_models(obstacles@),
            forall|k: int| 0 <= k < n ==> wf_entity(#[trigger] old(entities)@[k]@),
            forall|k: int|
                0 <= k < n ==> pos_within(
                    (#[trigger] old(entities)@[k])@.position,
                    RESOLVE_POS_LIMIT as int,
                ),
            forall|j: int| 0 <= j < obstacles@.len() ==> wf_obstacle(#[trigger] obstacles@[j]@),
            0 <= i <= n,
            forall|k: int| i <= k < n ==> #[trigger] entities@[k] == old(entities)@[k],
            forall|k: int|
                0 <= k < i ==> (#[trigger] entities@[k])@ == collision_pass(
                    old(entities)@[k]@,
                    obs_models,
                ),
            forall|k: int| 0 <= k < i ==> wf_entity(#[trigger] entities@[k]@),
            forall|k: int|
                0 <= k < i ==> pos_within(
                    (#[trigger] entities@[k])@.position,
                    RESOLVE_POS_LIMIT as int,
                ),
        decreases n - i,
    {
        let e0 = entities[i];
        if e0.physics_enabled {
            let mut e = e0;
            e.grounded = false;
            let ghost start = e@;
            match e0.half_extent {
                None => {
                    entities[i] = e;
                }
                Some(eh) => {
                    let m = obstacles.len();
                    let mut j: usize = 0;
                    while j < m
                        invariant
                            m == obstacles@.len(),
                            obs_models == obstacle_models(obstacles@),
                            forall|l: int|
                                0 <= l < m ==> wf_obstacle(#[trigger] obstacles@[l]@),
                            0 <= j <= m,
                            e@ == resolve_prefix(start, obs_models, j as int),
                            e.half_extent == Some(eh),
                            wf_entity(start),
                            pos_within(start.position, RESOLVE_POS_LIMIT as int),
                            start.half_extent == e@.half_extent,
                            wf_entity(e@),
                            pos_within(e@.position, RESOLVE_POS_LIMIT as int),
                        decreases m - j,
                    {
                        let ob = obstacles[j];
                        proof {
                            assert(ob@ == obs_models[j as int]);
                            assert(wf_obstacle(ob@));
                            assert(e@.half_extent == Some(eh@));
                        }
                        match ob.half_extent {
                            None => {}
                            Some(oh) => {
                                proof {
                                    assert(ob@.half_extent == Some(oh@));
                                    assert(crate::components::wf_extent(oh@));
                                    assert(crate::components::wf_extent(eh@));
                                }
                                match check_overlap(oh.x, eh.x, oh.y, eh.y, ob.position, e.position) {
                                    None => {}
                                    Some((overlap_x, overlap_y)) => {
                                        if overlap_x < overlap_y {
                                            // Horizontal collision (left or right side).
                                            if matches!(
                                                ob.collision_type,
                                                CollisionType::Wall | CollisionType::Solid
                                            ) {
                                                if e.position.x < ob.position.x {
                                                    // Colliding from the left.
                                                    e.position.x = e.position.x - overlap_x;
                                                } else {
                                                    // Colliding from the right.
                                                    e.position.x = e.position.x + overlap_x;
                                                }
                                                e.velocity.x = 0;
                                            }
                                        } else {
                                            if e.position.y < ob.position.y {
                                                // Colliding from below (hitting a ceiling).
                                                if matches!(
                                                    ob.collision_type,
                                                    CollisionType::Ceiling | CollisionType::Solid
                                                ) {
                                                    e.position.y = e.position.y - overlap_y;
                                                    e.velocity.y = 0;
                                                }
                                            } else {
                                                // Colliding from above (landing).
                                                if matches!(
                                                    ob.collision_type,
                                                    CollisionType::Ground | CollisionType::Solid
                                                ) {
                                                    e.position.y = e.position.y + overlap_y;
                                                    e.velocity.y = 0;
                                                    e.grounded = true;
                                                }
                                            }
                                        }
                                    }
                                }
                            }
                        }
                        j = j + 1;
                    }
                    entities[i] = e;
                }
            }
        }
        i = i + 1;
    }
}

} // verus!
