use bytepath::components::{
    BoundsComponent, ControllableComponent, Ease, Entity, ExplodeBoundsComponent,
    GarbageComponent, LifetimeComponent, MeshComponent, PositionComponent, RigidBodyComponent,
    ShootingComponent, Tween, TweenComponent,
};
use bytepath::entities::{
    ammo, create_ammo, create_death_explosion, create_out_of_bounds_explosion, create_player,
    create_projectile, death_explosion_fragment, spawn, ColliderDesc, RigidBodyDesc, Shape,
    Velocity, AMMO_OFFSET, FULL_TURN,
};
use bytepath::resources::{ColliderType, GameSettings, PhysicsSim};
use bytepath::utils::{Color, Rect};

fn settings() -> GameSettings {
    GameSettings { width: 1920, height: 1080, scale: 1 }
}

#[test]
fn player_starts_in_the_middle() {
    let player = create_player(&settings(), 42);
    let position = PositionComponent { x: 960_000, y: 540_000, angle: 500 };
    assert_eq!(player.position, position);
    assert_eq!(player.shape, Shape::Ship { size: 25_000 });
    assert_eq!(
        player.body,
        Some(RigidBodyDesc {
            position,
            velocity: Velocity::Linear { x: 0, y: 0 },
            angular_velocity: 0,
            collider: Some(ColliderDesc {
                radius: 25_000,
                collider_type: ColliderType::Player,
                membership: 0,
                blacklist: Some(1),
            }),
        })
    );
    assert_eq!(player.controllable, Some(ControllableComponent));
    assert_eq!(
        player.shooting,
        Some(ShootingComponent { every: 250_000_000, last_shot_at: 42 })
    );
    assert_eq!(player.garbage, GarbageComponent { is_alive: true });
    assert_eq!(player.bounds, None);
    assert_eq!(player.lifetime, None);
    assert_eq!(player.tween, None);
    assert_eq!(player.explode_bounds, None);
}

#[test]
fn player_of_an_odd_arena_stands_on_the_half_pixel() {
    let player = create_player(&GameSettings { width: 3, height: 5, scale: 1 }, 0);
    assert_eq!(player.position.x, 1_500);
    assert_eq!(player.position.y, 2_500);
}

#[test]
fn projectile_flies_along_the_heading_inside_the_arena() {
    let from = PositionComponent { x: 100_000, y: 200_000, angle: 1_570 };
    let projectile = create_projectile(&settings(), from);
    assert_eq!(projectile.position, from);
    assert_eq!(projectile.shape, Shape::Circle { radius: 4_000, tolerance: 100, thickness: 1_000 });
    assert_eq!(
        projectile.body,
        Some(RigidBodyDesc {
            position: from,
            velocity: Velocity::Polar { angle: 1_570, speed: 500_000 },
            angular_velocity: 0,
            collider: Some(ColliderDesc {
                radius: 4_000,
                collider_type: ColliderType::PlayerProjectile,
                membership: 1,
                blacklist: Some(0),
            }),
        })
    );
    assert_eq!(
        projectile.bounds,
        Some(BoundsComponent { x_min: 0, x_max: 1_920_000, y_min: 0, y_max: 1_080_000 })
    );
    assert_eq!(projectile.explode_bounds, Some(ExplodeBoundsComponent));
    assert_eq!(projectile.garbage, GarbageComponent { is_alive: true });
    assert_eq!(projectile.lifetime, None);
}

#[test]
fn out_of_bounds_explosion_lives_a_quarter_second() {
    let at = PositionComponent { x: -1, y: 5, angle: 0 };
    let explosion = create_out_of_bounds_explosion(at);
    assert_eq!(explosion.position, at);
    assert_eq!(
        explosion.shape,
        Shape::FilledRect {
            rect: Rect { x: -10_000, y: -10_000, w: 20_000, h: 20_000 },
            color: Color { r: 241, g: 103, b: 69 },
        }
    );
    assert_eq!(explosion.body, None);
    assert_eq!(explosion.lifetime, Some(LifetimeComponent { duration: 250_000_000 }));
    assert_eq!(explosion.garbage, GarbageComponent { is_alive: true });
}

#[test]
fn fragment_shrinks_and_dies_within_a_second() {
    let fragment = death_explosion_fragment(10, 20, 3_000, 15_000, 100_000);
    let position = PositionComponent { x: 10, y: 20, angle: 3_000 };
    assert_eq!(fragment.position, position);
    assert_eq!(
        fragment.shape,
        Shape::Line { length: 15_000, width: 2_000, color: Color { r: 241, g: 103, b: 69 } }
    );
    assert_eq!(
        fragment.body,
        Some(RigidBodyDesc {
            position,
            velocity: Velocity::Polar { angle: 3_000, speed: 100_000 },
            angular_velocity: 0,
            collider: None,
        })
    );
    assert_eq!(
        fragment.tween,
        Some(TweenComponent {
            tween_type: Tween::SizeTween { ease: Ease::Cubic, starting: 1_000, ending: 0 },
            elapsed: 0,
            duration: 1_000_000_000,
        })
    );
    assert_eq!(fragment.lifetime, Some(LifetimeComponent { duration: 1_000_000_000 }));
}

#[test]
fn death_explosion_draws_within_its_ranges() {
    for _ in 0..50 {
        let fragments = create_death_explosion(7_000, -3_000);
        assert!(fragments.len() >= 4 && fragments.len() < 30);
        for fragment in &fragments {
            let angle = fragment.position.angle;
            assert!(angle >= 0 && angle < FULL_TURN);
            let (length, speed) = match (fragment.shape, fragment.body) {
                (
                    Shape::Line { length, .. },
                    Some(RigidBodyDesc { velocity: Velocity::Polar { speed, .. }, .. }),
                ) => (length, speed),
                _ => panic!("a fragment is a line with a body"),
            };
            assert!(length >= 15_000 && length < 30_000);
            assert!(speed >= 100_000 && speed < 300_000);
            assert_eq!(*fragment, death_explosion_fragment(7_000, -3_000, angle, length, speed));
        }
    }
}

#[test]
fn death_explosion_is_not_constant() {
    let mut seen = Vec::new();
    for _ in 0..20 {
        for fragment in create_death_explosion(0, 0) {
            if !seen.contains(&fragment.position.angle) {
                seen.push(fragment.position.angle);
            }
        }
    }
    assert!(seen.len() > 1);
}

#[test]
fn ammo_enters_from_the_left_edge_moving_right() {
    let pickup = ammo(&settings(), true, 100_000, 10, 30_000);
    let position = PositionComponent { x: -48_000, y: 100_000, angle: 10 };
    assert_eq!(pickup.position, position);
    assert_eq!(
        pickup.body,
        Some(RigidBodyDesc {
            position,
            velocity: Velocity::Linear { x: 30_000, y: 0 },
            angular_velocity: 2_000,
            collider: Some(ColliderDesc {
                radius: 15_000,
                collider_type: ColliderType::Ammo,
                membership: 2,
                blacklist: None,
            }),
        })
    );
    assert_eq!(
        pickup.shape,
        Shape::OutlinedRect {
            rect: Rect { x: -15_000, y: -15_000, w: 15_000, h: 15_000 },
            thickness: 3_000,
            color: Color { r: 123, g: 200, b: 164 },
        }
    );
    assert_eq!(
        pickup.bounds,
        Some(BoundsComponent { x_min: -48_000, x_max: 1_968_000, y_min: 0, y_max: 1_080_000 })
    );
    assert_eq!(pickup.explode_bounds, None);
}

#[test]
fn ammo_enters_from_the_right_edge_moving_left() {
    let pickup = ammo(&settings(), false, 100_000, 10, 99_999);
    assert_eq!(pickup.position.x, 1_968_000);
    match pickup.body {
        Some(body) => assert_eq!(body.velocity, Velocity::Linear { x: -99_999, y: 0 }),
        None => panic!("a pickup has a body"),
    }
}

#[test]
fn random_ammo_stays_within_its_ranges() {
    assert_eq!(AMMO_OFFSET, 48_000);
    let mut left = false;
    let mut right = false;
    for _ in 0..200 {
        let pickup = create_ammo(&settings());
        let y = pickup.position.y;
        let angle = pickup.position.angle;
        assert!(y >= 48_000 && y < 1_080_000 - 48_000);
        assert!(angle >= 0 && angle < FULL_TURN);
        let from_left = pickup.position.x == -48_000;
        let vx = match pickup.body {
            Some(RigidBodyDesc { velocity: Velocity::Linear { x, y: 0 }, .. }) => x,
            _ => panic!("a pickup drifts along the x axis"),
        };
        let speed = if from_left { vx } else { -vx };
        assert!(speed >= 30_000 && speed < 100_000);
        assert_eq!(pickup, ammo(&settings(), from_left, y, angle, speed));
        left = left || from_left;
        right = right || !from_left;
    }
    assert!(left && right);
}

#[test]
fn random_ammo_in_the_smallest_arena_that_has_room() {
    let tight = GameSettings { width: 10, height: 97, scale: 1 };
    for _ in 0..20 {
        let y = create_ammo(&tight).position.y;
        assert!(y >= 48_000 && y < 49_000);
    }
}

#[test]
fn spawn_adds_the_row_and_indexes_the_body() {
    let mut rows = Vec::new();
    let mut sim = PhysicsSim::new();
    let projectile = create_projectile(&settings(), PositionComponent { x: 1, y: 2, angle: 3 });
    spawn(&projectile, Entity(5), Some(77), &mut rows, &mut sim);
    assert_eq!(rows.len(), 1);
    assert_eq!(rows[0], projectile.row(Entity(5), Some(77)));
    assert_eq!(rows[0].entity, Entity(5));
    assert_eq!(rows[0].rigid_body, Some(RigidBodyComponent { handle: 77 }));
    assert_eq!(rows[0].mesh, Some(MeshComponent { scale: 1_000 }));
    assert_eq!(rows[0].garbage, Some(GarbageComponent { is_alive: true }));
    assert_eq!(rows[0].bounds, projectile.bounds);
    assert_eq!(sim.entity_of(77), Some(Entity(5)));
}

#[test]
fn spawn_of_a_fragment_indexes_its_body_too() {
    let mut rows = Vec::new();
    let mut sim = PhysicsSim::new();
    let mut next = 0;
    for fragment in create_death_explosion(0, 0) {
        spawn(&fragment, Entity(next), Some(100 + next as u64), &mut rows, &mut sim);
        next += 1;
    }
    assert_eq!(sim.bodies.len(), rows.len());
    for row in &rows {
        let handle = row.rigid_body.unwrap().handle;
        assert_eq!(handle, 100 + row.entity.0 as u64);
        assert_eq!(sim.entity_of(handle), Some(row.entity));
    }
}

#[test]
fn spawn_without_a_body_ignores_the_handle() {
    let mut rows = Vec::new();
    let mut sim = PhysicsSim::new();
    let explosion = create_out_of_bounds_explosion(PositionComponent { x: 0, y: 0, angle: 0 });
    spawn(&explosion, Entity(1), Some(9), &mut rows, &mut sim);
    assert_eq!(rows[0].rigid_body, None);
    assert_eq!(sim.entity_of(9), None);
    let player = create_player(&settings(), 0);
    spawn(&player, Entity(2), None, &mut rows, &mut sim);
    assert_eq!(rows[1].rigid_body, None);
    assert_eq!(sim.bodies.len(), 0);
}
