use bytepath::components::{
    Entity, EntityRow, GarbageComponent, LifetimeComponent, NANOS_PER_MILLI, NANOS_PER_SEC, UNIT,
};
use bytepath::resources::{
    ColliderType, GameSettings, Input, PhysicsSim, SpawnInfo, UpdateTime,
    AMMO_BODY_COLLISION_GROUP, PLAYER_BODY_COLLISION_GROUP, PLAYER_PROJECTILE_COLLISION_GROUP,
};
use bytepath::utils::{
    ammo_color, backround_color, boost_color, hp_color, rect_to_polygon, Color, Point2, Rect,
};

#[test]
fn garbage_starts_alive() {
    assert!(GarbageComponent::default().is_alive);
}

#[test]
fn units_are_thousandths() {
    assert_eq!(UNIT, 1000);
    assert_eq!(NANOS_PER_MILLI, 1_000_000);
    assert_eq!(NANOS_PER_SEC, 1_000_000_000);
}

#[test]
fn new_row_owns_nothing() {
    let row = EntityRow::new(Entity(7));
    assert_eq!(row.entity, Entity(7));
    assert_eq!(row.position, None);
    assert_eq!(row.rigid_body, None);
    assert_eq!(row.bounds, None);
    assert_eq!(row.explode_bounds, None);
    assert_eq!(row.controllable, None);
    assert_eq!(row.shooting, None);
    assert_eq!(row.lifetime, None);
    assert_eq!(row.tween, None);
    assert_eq!(row.mesh, None);
    assert_eq!(row.garbage, None);
}

#[test]
fn lifetime_component_holds_nanoseconds() {
    let lifetime = LifetimeComponent { duration: 250 * NANOS_PER_MILLI };
    assert_eq!(lifetime.duration, 250_000_000);
}

#[test]
fn collider_labels_parse() {
    assert_eq!(ColliderType::parse("Player"), Ok(ColliderType::Player));
    assert_eq!(ColliderType::parse("PlayerProjectile"), Ok(ColliderType::PlayerProjectile));
    assert_eq!(ColliderType::parse("Ammo"), Ok(ColliderType::Ammo));
}

#[test]
fn collider_labels_parse_through_from_str() {
    assert_eq!("Ammo".parse::<ColliderType>(), Ok(ColliderType::Ammo));
    assert!("ammo".parse::<ColliderType>().is_err());
}

#[test]
fn unknown_collider_label_is_an_error_that_quotes_it() {
    assert_eq!(
        ColliderType::parse("Wall"),
        Err("Unable to parse Wall as ColliderType".to_string())
    );
    assert_eq!(ColliderType::parse(""), Err("Unable to parse  as ColliderType".to_string()));
    assert!(ColliderType::parse("Player ").is_err());
    assert!(ColliderType::parse("Playe").is_err());
}

#[test]
fn collider_labels_round_trip() {
    for t in [ColliderType::Player, ColliderType::PlayerProjectile, ColliderType::Ammo] {
        assert_eq!(ColliderType::parse(&t.to_string()), Ok(t));
    }
    assert_eq!(ColliderType::PlayerProjectile.to_string(), "PlayerProjectile");
}

#[test]
fn collision_groups_are_distinct() {
    assert_eq!(PLAYER_BODY_COLLISION_GROUP, 0);
    assert_eq!(PLAYER_PROJECTILE_COLLISION_GROUP, 1);
    assert_eq!(AMMO_BODY_COLLISION_GROUP, 2);
}

#[test]
fn input_starts_with_no_key_held() {
    let input = Input::default();
    assert_eq!(input, Input::new());
    assert!(!input.up && !input.down && !input.left && !input.right && !input.attack);
}

#[test]
fn default_settings() {
    let settings = GameSettings::default();
    assert_eq!(settings, GameSettings { width: 1920, height: 1080, scale: 1 });
}

#[test]
fn spawn_info_starts_empty() {
    let info = SpawnInfo::new(5);
    assert_eq!(
        info,
        SpawnInfo { ammo_last: 5, ammo_every: 100_000_000, ammo_count: 0, ammo_max: 4 }
    );
}

#[test]
fn update_time_gives_the_whole_frame_time() {
    assert_eq!(UpdateTime::default().0, 0);
    assert_eq!(UpdateTime(16_666_667).timestep_nanos(), 16_666_667);
    assert_eq!(UpdateTime(1_500_000_000).timestep_nanos(), 1_500_000_000);
    assert_eq!(UpdateTime(1_500_000_000).seconds_and_nanos(), (1, 500_000_000));
    assert_eq!(UpdateTime(2_000_000_123).seconds_and_nanos(), (2, 123));
    assert_eq!(UpdateTime(u64::MAX).seconds_and_nanos(), (18_446_744_073, 709_551_615));
    assert_eq!(UpdateTime(u64::MAX).timestep_nanos(), u64::MAX);
}

#[test]
fn handle_index_registers_and_releases() {
    let mut sim = PhysicsSim::default();
    assert_eq!(sim.entity_of(3), None);
    sim.register(3, Entity(10));
    sim.register(4, Entity(11));
    assert_eq!(sim.entity_of(3), Some(Entity(10)));
    assert_eq!(sim.entity_of(4), Some(Entity(11)));
    sim.register(3, Entity(12));
    assert_eq!(sim.entity_of(3), Some(Entity(12)));
    sim.release(3);
    assert_eq!(sim.entity_of(3), None);
    assert_eq!(sim.entity_of(4), Some(Entity(11)));
    sim.release(3);
    assert_eq!(sim.bodies.len(), 1);
}

#[test]
fn palette() {
    assert_eq!(backround_color(), Color { r: 16, g: 16, b: 16 });
    assert_eq!(ammo_color(), Color { r: 123, g: 200, b: 164 });
    assert_eq!(boost_color(), Color { r: 76, g: 195, b: 217 });
    assert_eq!(hp_color(), Color { r: 241, g: 103, b: 69 });
}

#[test]
fn rect_corners_in_order() {
    let polygon = rect_to_polygon(Rect { x: -10_000, y: -5_000, w: 20_000, h: 7_000 });
    assert_eq!(
        polygon,
        vec![
            Point2 { x: -10_000, y: -5_000 },
            Point2 { x: 10_000, y: -5_000 },
            Point2 { x: 10_000, y: 2_000 },
            Point2 { x: -10_000, y: 2_000 },
        ]
    );
}
