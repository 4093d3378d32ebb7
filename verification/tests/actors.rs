use bytepath::actors::{Effect, EffectType, GameAction, Player, Projectile, ProjectileType};
use bytepath::components::{Entity, EntityRow, GarbageComponent, PowerUp, PowerUpComponent};
use bytepath::entities::{ammo, create_player, Velocity};
use bytepath::resources::{GameSettings, Input, SpawnInfo};
use bytepath::schedule::{check_order, schedule, SystemId};
use bytepath::systems::spawn::SpawnSystem;
use bytepath::utils::Color;

fn red() -> EffectType {
    EffectType::Shooting { color: Color { r: 255, g: 0, b: 0 } }
}

#[test]
fn effect_dies_at_its_lifetime() {
    let mut effect = Effect::new(1, 2, 240_000_000, red());
    assert_eq!((effect.x, effect.y, effect.age, effect.lifetime), (1, 2, 0, 240_000_000));
    assert!(!effect.is_dead());
    assert!(effect.update(239_999_999).is_empty());
    assert!(!effect.is_dead());
    let actions = effect.update(1);
    assert!(effect.is_dead());
    assert_eq!(actions.len(), 1);
    match &actions[0] {
        GameAction::DestroyEffect { id } => assert_eq!(*id, effect.id),
        _ => panic!("a dead effect asks to be destroyed"),
    }
    assert_eq!(effect.update(u64::MAX).len(), 1);
    assert_eq!(effect.age, u64::MAX);
}

#[test]
fn effect_without_lifetime_is_dead_at_once() {
    let mut effect = Effect::new(0, 0, 0, red());
    assert!(effect.is_dead());
    assert_eq!(effect.update(0).len(), 1);
}

#[test]
fn effects_get_identifiers_of_their_own() {
    let a = Effect::new(0, 0, 1, red());
    let b = Effect::new(0, 0, 1, red());
    assert_ne!(a.id, b.id);
    assert_eq!(a.id.get_version_num(), 4);
    assert_eq!(a.clone().id, a.id);
}

#[test]
fn projectile_follows_its_body() {
    let mut projectile =
        Projectile::new(9, 1, 2, 400_000, 1_571, ProjectileType::Basic { radius: 2_000 });
    assert_eq!(Projectile::COLLIDER_RADIUS, 10_000);
    let (velocity, actions) = projectile.update(30, 40);
    assert_eq!((projectile.x, projectile.y), (30, 40));
    assert_eq!(velocity, Velocity::Polar { angle: 1_571, speed: 400_000 });
    assert!(actions.is_empty());
    assert_eq!(projectile.rigid_body_handle, 9);
}

#[test]
fn player_starts_at_rest_in_the_middle() {
    let player = Player::new(3, 1920, 1080);
    assert_eq!(
        player,
        Player {
            rigid_body_handle: 3,
            x: 960_000,
            y: 540_000,
            velocity: 0,
            max_velocity: 200_000,
            acceleration: 100_000,
            angle: 1_571,
            radius: 10_000,
            thickness: 2_000,
        }
    );
}

#[test]
fn player_speeds_up_to_its_top_speed() {
    let mut player = Player::new(3, 100, 100);
    let input = Input::new();
    let mut speeds = Vec::new();
    for _ in 0..22 {
        let (velocity, actions) = player.update(&input, 5, 6, None);
        assert!(actions.is_empty());
        assert_eq!(velocity, Velocity::Polar { angle: 1_571, speed: player.velocity });
        speeds.push(player.velocity);
    }
    assert_eq!(speeds[0], 10_000);
    assert_eq!(speeds[18], 190_000);
    assert_eq!(speeds[19], 200_000);
    assert_eq!(speeds[21], 200_000);
    assert_eq!((player.x, player.y), (5, 6));
}

#[test]
fn player_that_brakes_slows_down_by_a_tenth_rounded_toward_zero() {
    let mut player = Player::new(3, 100, 100);
    player.velocity = 100;
    player.acceleration = -15;
    let input = Input::new();
    player.update(&input, 0, 0, None);
    assert_eq!(player.velocity, 99);
    player.acceleration = -9;
    player.update(&input, 0, 0, None);
    assert_eq!(player.velocity, 99);
    player.acceleration = -1_000;
    player.max_velocity = -50;
    player.update(&input, 0, 0, None);
    assert_eq!(player.velocity, -50);
    player.max_velocity = 200_000;
    player.velocity = i64::MIN + 100;
    player.update(&input, 0, 0, None);
    assert_eq!(player.velocity, i64::MIN);
    player.acceleration = i64::MIN;
    player.velocity = 0;
    player.update(&input, 0, 0, None);
    assert_eq!(player.velocity, -922_337_203_685_477_580);
}

#[test]
fn player_turns_and_shoots() {
    let mut player = Player::new(3, 100, 100);
    let mut input = Input::new();
    input.left = true;
    input.right = true;
    input.attack = true;
    let (_, actions) = player.update(&input, 7, 8, Some(44));
    assert_eq!(player.angle, 1_521);
    assert_eq!(actions.len(), 2);
    match &actions[0] {
        GameAction::CreateProjectile { projectile } => {
            assert_eq!(projectile.rigid_body_handle, 44);
            assert_eq!((projectile.x, projectile.y), (7, 8));
            assert_eq!(projectile.velocity, 400_000);
            assert_eq!(projectile.angle, 1_521);
            assert_eq!(projectile.projectile_type, ProjectileType::Basic { radius: 2_000 });
        }
        _ => panic!("a shot asks for a projectile first"),
    }
    match &actions[1] {
        GameAction::CreateEffect { effect } => {
            assert_eq!((effect.x, effect.y, effect.age), (7, 8, 0));
            assert_eq!(effect.lifetime, 240_000_000);
            assert_eq!(effect.effect_type, red());
        }
        _ => panic!("a shot asks for its flash second"),
    }
    input.left = false;
    let (_, actions) = player.update(&input, 7, 8, None);
    assert_eq!(player.angle, 1_571);
    assert!(actions.is_empty());
    input.attack = false;
    let (_, actions) = player.update(&input, 7, 8, Some(45));
    assert!(actions.is_empty());
}

#[test]
fn schedule_runs_every_system_once_after_its_dependencies() {
    let order = schedule();
    assert_eq!(order.len(), 10);
    assert!(check_order(&order));
    let all = [
        SystemId::Physics,
        SystemId::Collision,
        SystemId::Position,
        SystemId::Controllable,
        SystemId::Shooting,
        SystemId::Bounds,
        SystemId::Lifetime,
        SystemId::Tween,
        SystemId::Spawn,
        SystemId::Garbage,
    ];
    for system in all {
        assert_eq!(order.iter().filter(|s| **s == system).count(), 1);
        let at = order.iter().position(|s| *s == system).unwrap();
        for other in all {
            if system.depends_on(&other) {
                assert!(order.iter().position(|s| *s == other).unwrap() < at);
            }
        }
    }
    assert_eq!(order[0], SystemId::Physics);
    assert_eq!(order[9], SystemId::Garbage);
}

#[test]
fn dependencies_are_the_declared_ones() {
    assert!(SystemId::Collision.depends_on(&SystemId::Physics));
    assert!(SystemId::Position.depends_on(&SystemId::Physics));
    assert!(SystemId::Controllable.depends_on(&SystemId::Physics));
    assert!(SystemId::Bounds.depends_on(&SystemId::Position));
    assert!(SystemId::Garbage.depends_on(&SystemId::Collision));
    assert!(SystemId::Garbage.depends_on(&SystemId::Bounds));
    assert!(SystemId::Garbage.depends_on(&SystemId::Lifetime));
    assert!(!SystemId::Physics.depends_on(&SystemId::Collision));
    assert!(!SystemId::Physics.depends_on(&SystemId::Physics));
    assert!(!SystemId::Shooting.depends_on(&SystemId::Physics));
}

#[test]
fn orders_that_break_a_dependency_are_refused() {
    assert!(check_order(&Vec::new()));
    assert!(check_order(&vec![SystemId::Physics, SystemId::Position, SystemId::Bounds]));
    assert!(!check_order(&vec![SystemId::Position, SystemId::Physics]));
    assert!(!check_order(&vec![SystemId::Garbage, SystemId::Tween, SystemId::Lifetime]));
    assert!(check_order(&vec![SystemId::Tween, SystemId::Tween]));
}

#[test]
fn reaped_ammo_is_released() {
    let settings = GameSettings { width: 1920, height: 1080, scale: 1 };
    let pickup = ammo(&settings, true, 100_000, 0, 30_000).row(Entity(1), Some(1));
    assert_eq!(pickup.power_up, Some(PowerUpComponent { variant: PowerUp::Ammo }));
    let player = create_player(&settings, 0).row(Entity(2), Some(2));
    assert_eq!(player.power_up, None);
    let mut boost = EntityRow::new(Entity(3));
    boost.power_up = Some(PowerUpComponent { variant: PowerUp::Boost });
    boost.garbage = Some(GarbageComponent { is_alive: false });

    let mut info = SpawnInfo { ammo_last: 0, ammo_every: 0, ammo_count: 3, ammo_max: 4 };
    SpawnSystem::release_reaped(&mut info, &vec![pickup, player, boost, pickup]);
    assert_eq!(info, SpawnInfo { ammo_last: 0, ammo_every: 0, ammo_count: 1, ammo_max: 4 });
    SpawnSystem::release_reaped(&mut info, &vec![pickup, pickup, pickup]);
    assert_eq!(info.ammo_count, 0);
    SpawnSystem::release_reaped(&mut info, &Vec::new());
    assert_eq!(info.ammo_count, 0);
}
