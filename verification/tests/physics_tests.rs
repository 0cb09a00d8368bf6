//! Scenario tests for gravity, integration and collision resolution.
//! Lengths are in thousandths of a world unit, times in milliseconds.

use platformer::components::{half_extent_from_footprint, CollisionType, Entity, Obstacle};
use platformer::constants::{GRAVITY, MAX_FALL_SPEED};
use platformer::math::Vec2;
use platformer::physics::{
    apply_gravity, apply_velocity, check_overlap, handle_collision,
};

fn entity(x: i64, y: i64, vx: i64, vy: i64, hx: i64, hy: i64) -> Entity {
    Entity {
        position: Vec2 { x, y },
        velocity: Vec2 { x: vx, y: vy },
        half_extent: Some(Vec2 { x: hx, y: hy }),
        grounded: false,
        physics_enabled: true,
    }
}

fn obstacle(x: i64, y: i64, hx: i64, hy: i64, kind: CollisionType) -> Obstacle {
    Obstacle {
        position: Vec2 { x, y },
        half_extent: Some(Vec2 { x: hx, y: hy }),
        collision_type: kind,
    }
}

/// A falling entity lands on a `Ground` obstacle: one integration step puts
/// it into the surface, and resolution leaves it resting exactly on top
/// with its fall stopped and `grounded` set.
#[test]
fn landing_on_ground_snaps_to_surface() {
    // Footprints of 8 and (50, 8) world units, halved to half-extents.
    let player_half = half_extent_from_footprint(Vec2 { x: 8_000, y: 8_000 });
    let ground_half = half_extent_from_footprint(Vec2 { x: 50_000, y: 8_000 });
    assert_eq!(player_half, Vec2 { x: 4_000, y: 4_000 });
    assert_eq!(ground_half, Vec2 { x: 25_000, y: 4_000 });

    let mut entities = vec![Entity {
        position: Vec2 { x: 0, y: 10_000 },
        velocity: Vec2 { x: 0, y: -50_000 },
        half_extent: Some(player_half),
        grounded: false,
        physics_enabled: true,
    }];
    let obstacles = vec![Obstacle {
        position: Vec2 { x: 0, y: 0 },
        half_extent: Some(ground_half),
        collision_type: CollisionType::Ground,
    }];

    apply_velocity(&mut entities, 100);
    assert_eq!(entities[0].position, Vec2 { x: 0, y: 5_000 });

    handle_collision(&mut entities, &obstacles);
    assert_eq!(entities[0].position, Vec2 { x: 0, y: 8_000 });
    assert_eq!(entities[0].velocity, Vec2 { x: 0, y: 0 });
    assert!(entities[0].grounded);
}

/// An entity overlapping a `Wall` purely vertically gets no correction at
/// all: a wall does not block vertical entry.
#[test]
fn wall_ignores_vertical_overlap() {
    let mut entities = vec![entity(0, 5_000, 0, -10_000, 4_000, 4_000)];
    let obstacles = vec![obstacle(0, 0, 25_000, 4_000, CollisionType::Wall)];

    handle_collision(&mut entities, &obstacles);
    assert_eq!(entities[0].position, Vec2 { x: 0, y: 5_000 });
    assert_eq!(entities[0].velocity, Vec2 { x: 0, y: -10_000 });
    assert!(!entities[0].grounded);
}

/// A `Ground` obstacle never halts horizontal motion: a sideways overlap
/// against it is left unresolved.
#[test]
fn ground_does_not_block_horizontal() {
    // Entity to the left of a tall ground block, penetrating on X less
    // than on Y, so the horizontal axis is chosen - and then refused.
    let mut entities = vec![entity(-5_000, 0, 30_000, 0, 4_000, 4_000)];
    let obstacles = vec![obstacle(0, 0, 2_000, 40_000, CollisionType::Ground)];

    handle_collision(&mut entities, &obstacles);
    assert_eq!(entities[0].position, Vec2 { x: -5_000, y: 0 });
    assert_eq!(entities[0].velocity, Vec2 { x: 30_000, y: 0 });
    assert!(!entities[0].grounded);
}

/// A `Wall` never sets `grounded`, even when the vertical axis would be a
/// landing; the sideways case corrects the position but leaves the flag.
#[test]
fn wall_never_sets_grounded() {
    // Landing-shaped overlap on a wall: nothing happens.
    let mut entities = vec![entity(0, 6_000, 0, -1_000, 4_000, 4_000)];
    let obstacles = vec![obstacle(0, 0, 25_000, 4_000, CollisionType::Wall)];
    handle_collision(&mut entities, &obstacles);
    assert!(!entities[0].grounded);
    assert_eq!(entities[0].position, Vec2 { x: 0, y: 6_000 });

    // Sideways overlap on a wall: position corrected, still not grounded.
    let mut entities = vec![entity(-5_000, 0, 30_000, 0, 4_000, 4_000)];
    let obstacles = vec![obstacle(0, 0, 2_000, 40_000, CollisionType::Wall)];
    handle_collision(&mut entities, &obstacles);
    assert_eq!(entities[0].position, Vec2 { x: -6_000, y: 0 });
    assert_eq!(entities[0].velocity, Vec2 { x: 0, y: 0 });
    assert!(!entities[0].grounded);
}

/// Gravity accelerates a fall and clamps it at the terminal speed, where
/// it stays over any further applications.
#[test]
fn gravity_clamps_to_terminal_speed() {
    let mut entities = vec![entity(0, 0, 0, 0, 4_000, 4_000)];

    apply_gravity(&mut entities, 100);
    assert_eq!(entities[0].velocity.y, GRAVITY / 10); // -98_000

    for _ in 0..20 {
        apply_gravity(&mut entities, 1_000);
    }
    assert_eq!(entities[0].velocity.y, MAX_FALL_SPEED);

    apply_gravity(&mut entities, 1_000);
    assert_eq!(entities[0].velocity.y, MAX_FALL_SPEED);
}

/// The Euler step moves by velocity times elapsed time, truncating the
/// magnitude of the scaled displacement.
#[test]
fn velocity_integration_truncates_magnitude() {
    let mut entities = vec![entity(1_000, -2_000, 999, -999, 4_000, 4_000)];
    apply_velocity(&mut entities, 100);
    // 999 * 100 / 1000 truncates to 99 on both axes, sign kept.
    assert_eq!(entities[0].position, Vec2 { x: 1_099, y: -2_099 });
}

/// A `Solid` obstacle blocks from the side: the entity is pushed out on the
/// shallower axis and its horizontal velocity is zeroed.
#[test]
fn solid_blocks_from_side() {
    let mut entities = vec![entity(-5_000, 1_000, 30_000, -500, 4_000, 4_000)];
    let obstacles = vec![obstacle(0, 0, 2_000, 40_000, CollisionType::Solid)];

    handle_collision(&mut entities, &obstacles);
    // overlap_x = (2000 + 4000) - 5000 = 1000; pushed left by it.
    assert_eq!(entities[0].position, Vec2 { x: -6_000, y: 1_000 });
    assert_eq!(entities[0].velocity, Vec2 { x: 0, y: -500 });
    assert!(!entities[0].grounded);
}

/// A `Ceiling` obstacle bumps a rising entity back down and zeroes its
/// vertical velocity without grounding it.
#[test]
fn ceiling_bumps_head() {
    let mut entities = vec![entity(0, -6_000, 0, 20_000, 4_000, 4_000)];
    let obstacles = vec![obstacle(0, 0, 25_000, 4_000, CollisionType::Ceiling)];

    handle_collision(&mut entities, &obstacles);
    // overlap_y = (4000 + 4000) - 6000 = 2000; pushed down by it.
    assert_eq!(entities[0].position, Vec2 { x: 0, y: -8_000 });
    assert_eq!(entities[0].velocity, Vec2 { x: 0, y: 0 });
    assert!(!entities[0].grounded);
}

/// An entity without geometry this tick is skipped by resolution; only its
/// grounded flag is reset.
#[test]
fn missing_geometry_skips_entity() {
    let mut entities = vec![Entity {
        position: Vec2 { x: 0, y: 0 },
        velocity: Vec2 { x: 0, y: -10_000 },
        half_extent: None,
        grounded: true,
        physics_enabled: true,
    }];
    let obstacles = vec![obstacle(0, 0, 25_000, 4_000, CollisionType::Solid)];

    handle_collision(&mut entities, &obstacles);
    assert_eq!(entities[0].position, Vec2 { x: 0, y: 0 });
    assert_eq!(entities[0].velocity, Vec2 { x: 0, y: -10_000 });
    assert!(!entities[0].grounded);
}

/// A record that is not physics-enabled is untouched by every physics
/// stage.
#[test]
fn non_physics_entity_untouched() {
    let still = Entity {
        position: Vec2 { x: 100, y: 200 },
        velocity: Vec2 { x: 300, y: 400 },
        half_extent: Some(Vec2 { x: 4_000, y: 4_000 }),
        grounded: true,
        physics_enabled: false,
    };
    let mut entities = vec![still];
    let obstacles = vec![obstacle(0, 0, 25_000, 25_000, CollisionType::Solid)];

    apply_gravity(&mut entities, 1_000);
    apply_velocity(&mut entities, 1_000);
    handle_collision(&mut entities, &obstacles);
    assert_eq!(entities[0], still);
}

/// The overlap test reports exact penetration depths, and separation on
/// either axis reports no intersection.
#[test]
fn check_overlap_reports_depths() {
    let a = Vec2 { x: 0, y: 0 };
    let b = Vec2 { x: 5_000, y: 1_000 };
    assert_eq!(
        check_overlap(4_000, 4_000, 4_000, 4_000, a, b),
        Some((3_000, 7_000))
    );
    // Separated on X: distance 9000 exceeds the summed half widths.
    let far = Vec2 { x: 9_000, y: 0 };
    assert_eq!(check_overlap(4_000, 4_000, 4_000, 4_000, a, far), None);
    // Touching exactly is not intersecting.
    let touch = Vec2 { x: 8_000, y: 0 };
    assert_eq!(check_overlap(4_000, 4_000, 4_000, 4_000, a, touch), None);
}

/// Obstacles are processed sequentially: a correction from the first
/// changes the position the second is tested against.
#[test]
fn obstacles_resolve_in_iteration_order() {
    let mut entities = vec![entity(0, 6_000, 0, -10_000, 4_000, 4_000)];
    let obstacles = vec![
        obstacle(0, 0, 25_000, 4_000, CollisionType::Ground),
        obstacle(0, 0, 25_000, 4_000, CollisionType::Ground),
    ];

    handle_collision(&mut entities, &obstacles);
    // The first ground lifts the entity to rest at y = 8000; the second no
    // longer overlaps it, so the result stands.
    assert_eq!(entities[0].position, Vec2 { x: 0, y: 8_000 });
    assert!(entities[0].grounded);
}
