//! Entity factories: each makes the blueprint of one kind of entity, the
//! components it starts with and what the physics engine and the renderer
//! are asked to build for it.

use vstd::prelude::*;
use crate::chance::{gen_range, random_bool, thread_rng};
use crate::components::{
    distinct_entities, index_in_step, BodyHandle, BoundsComponent, ControllableComponent, Ease,
    Entity, EntityRow, ExplodeBoundsComponent, GarbageComponent, LifetimeComponent, MeshComponent,
    PositionComponent, PowerUp, PowerUpComponent, RigidBodyComponent, ShootingComponent, Tween,
    TweenComponent, NANOS_PER_MILLI, UNIT,
};
use crate::resources::{
    ColliderType, GameSettings, PhysicsSim, AMMO_BODY_COLLISION_GROUP,
    PLAYER_BODY_COLLISION_GROUP, PLAYER_PROJECTILE_COLLISION_GROUP,
};
use crate::utils::{ammo_color, hp_color, Color, Rect};

verus! {

/// Linear velocity of a new body, in fixed-point pixels per second.
#[derive(Clone, Copy, Debug, PartialEq, Eq, Structural)]
pub enum Velocity {
    /// By its two axes.
    Linear { x: i64, y: i64 },
    /// `speed` along the heading `angle`.
    Polar { angle: i64, speed: i64 },
}

/// The ball collider of a new body.
#[derive(Clone, Copy, Debug, PartialEq, Eq, Structural)]
pub struct ColliderDesc {
    pub radius: i64,
    pub collider_type: ColliderType,
    /// The collision group the collider is a member of.
    pub membership: usize,
    /// The collision group it never collides with.
    pub blacklist: Option<usize>,
}

/// The dynamic rigid body that the physics engine is asked to build.
#[derive(Clone, Copy, Debug, PartialEq, Eq, Structural)]
pub struct RigidBodyDesc {
    pub position: PositionComponent,
    pub velocity: Velocity,
    /// In thousandths of a radian per second.
    pub angular_velocity: i64,
    pub collider: Option<ColliderDesc>,
}

/// The geometry that the renderer is asked to build.
#[derive(Clone, Copy, Debug, PartialEq, Eq, Structural)]
pub enum Shape {
    /// The outline of the player's ship.
    Ship { size: i64 },
    /// The outline of a circle round the origin.
    Circle { radius: i64, tolerance: i64, thickness: i64 },
    /// A filled rectangle.
    FilledRect { rect: Rect, color: Color },
    /// The outline of a rectangle.
    OutlinedRect { rect: Rect, thickness: i64, color: Color },
    /// A line from the origin along the x axis.
    Line { length: i64, width: i64, color: Color },
}

/// Everything a new entity starts with.
#[derive(Clone, Copy, Debug, PartialEq, Eq, Structural)]
pub struct Blueprint {
    pub position: PositionComponent,
    pub shape: Shape,
    pub body: Option<RigidBodyDesc>,
    pub bounds: Option<BoundsComponent>,
    pub explode_bounds: Option<ExplodeBoundsComponent>,
    pub controllable: Option<ControllableComponent>,
    pub shooting: Option<ShootingComponent>,
    pub lifetime: Option<LifetimeComponent>,
    pub tween: Option<TweenComponent>,
    pub power_up: Option<PowerUpComponent>,
    pub garbage: GarbageComponent,
}

/// Full turn in thousandths of a radian, rounded down.
pub const FULL_TURN: i64 = 6283;

/// Distance from the arena's side edges at which pickups appear.
pub const AMMO_OFFSET: i64 = 48 * UNIT;

/// `pixels` whole pixels in fixed-point units.
pub open spec fn units(pixels: u32) -> int {
    pixels as int * UNIT as int
}

pub open spec fn player_blueprint(settings: GameSettings, now: u64) -> Blueprint {
    let position = PositionComponent {
        x: (settings.width as int * 500) as i64,
        y: (settings.height as int * 500) as i64,
        angle: 500,
    };
    Blueprint {
        position,
        shape: Shape::Ship { size: 25_000 },
        body: Some(
            RigidBodyDesc {
                position,
                velocity: Velocity::Linear { x: 0, y: 0 },
                angular_velocity: 0,
                collider: Some(
                    ColliderDesc {
                        radius: 25_000,
                        collider_type: ColliderType::Player,
                        membership: PLAYER_BODY_COLLISION_GROUP,
                        blacklist: Some(PLAYER_PROJECTILE_COLLISION_GROUP),
                    },
                ),
            },
        ),
        bounds: None,
        explode_bounds: None,
        controllable: Some(ControllableComponent),
        shooting: Some(
            ShootingComponent { every: (250 * NANOS_PER_MILLI) as u64, last_shot_at: now },
        ),
        lifetime: None,
        tween: None,
        power_up: None,
        garbage: GarbageComponent { is_alive: true },
    }
}

/// The player: in the middle of the arena, steered by input, armed with a
/// weapon that was last fired at `now`.
pub fn create_player(settings: &GameSettings, now: u64) -> (blueprint: Blueprint)
    ensures
        blueprint == player_blueprint(*settings, now),
{
    let x: i64 = settings.width as i64 * 500;
    let y: i64 = settings.height as i64 * 500;
    let angle: i64 = 500;
    let size: i64 = 25 * UNIT;
    let position = PositionComponent { x, y, angle };
    let collider = ColliderDesc {
        radius: size,
        collider_type: ColliderType::Player,
        membership: PLAYER_BODY_COLLISION_GROUP,
        blacklist: Some(PLAYER_PROJECTILE_COLLISION_GROUP),
    };
    let body = RigidBodyDesc {
        position,
        velocity: Velocity::Linear { x: 0, y: 0 },
        angular_velocity: 0,
        collider: Some(collider),
    };
    Blueprint {
        position,
        shape: Shape::Ship { size },
        body: Some(body),
        bounds: None,
        explode_bounds: None,
        controllable: Some(ControllableComponent),
        shooting: Some(ShootingComponent { every: 250 * NANOS_PER_MILLI, last_shot_at: now }),
        lifetime: None,
        tween: None,
        power_up: None,
        garbage: GarbageComponent::default(),
    }
}

pub open spec fn projectile_blueprint(
    settings: GameSettings,
    position: PositionComponent,
) -> Blueprint {
    Blueprint {
        position,
        shape: Shape::Circle { radius: 4000, tolerance: 100, thickness: 1000 },
        body: Some(
            RigidBodyDesc {
                position,
                velocity: Velocity::Polar { angle: position.angle, speed: 500_000 },
                angular_velocity: 0,
                collider: Some(
                    ColliderDesc {
                        radius: 4000,
                        collider_type: ColliderType::PlayerProjectile,
                        membership: PLAYER_PROJECTILE_COLLISION_GROUP,
                        blacklist: Some(PLAYER_BODY_COLLISION_GROUP),
                    },
                ),
            },
        ),
        bounds: Some(
            BoundsComponent {
                x_min: 0,
                x_max: units(settings.width) as i64,
                y_min: 0,
                y_max: units(settings.height) as i64,
            },
        ),
        explode_bounds: Some(ExplodeBoundsComponent),
        controllable: None,
        shooting: None,
        lifetime: None,
        tween: None,
        power_up: None,
        garbage: GarbageComponent { is_alive: true },
    }
}

/// A projectile fired from `position` along its heading. It lives inside
/// the arena and explodes where it leaves it.
pub fn create_projectile(settings: &GameSettings, position_component: PositionComponent) -> (blueprint:
    Blueprint)
    ensures
        blueprint == projectile_blueprint(*settings, position_component),
{
    let radius: i64 = 4 * UNIT;
    let collider = ColliderDesc {
        radius,
        collider_type: ColliderType::PlayerProjectile,
        membership: PLAYER_PROJECTILE_COLLISION_GROUP,
        blacklist: Some(PLAYER_BODY_COLLISION_GROUP),
    };
    let body = RigidBodyDesc {
        position: position_component,
        velocity: Velocity::Polar { angle: position_component.angle, speed: 500 * UNIT },
        angular_velocity: 0,
        collider: Some(collider),
    };
    let bounds = BoundsComponent {
        x_min: 0,
        x_max: settings.width as i64 * UNIT,
        y_min: 0,
        y_max: settings.height as i64 * UNIT,
    };
    Blueprint {
        position: position_component,
        shape: Shape::Circle { radius, tolerance: UNIT / 10, thickness: UNIT },
        body: Some(body),
        bounds: Some(bounds),
        explode_bounds: Some(ExplodeBoundsComponent),
        controllable: None,
        shooting: None,
        lifetime: None,
        tween: None,
        power_up: None,
        garbage: GarbageComponent::default(),
    }
}

pub open spec fn out_of_bounds_explosion_blueprint(position: PositionComponent) -> Blueprint {
    Blueprint {
        position,
        shape: Shape::FilledRect {
            rect: Rect { x: -10_000i64, y: -10_000i64, w: 20_000, h: 20_000 },
            color: Color { r: 241, g: 103, b: 69 },
        },
        body: None,
        bounds: None,
        explode_bounds: None,
        controllable: None,
        shooting: None,
        lifetime: Some(LifetimeComponent { duration: (250 * NANOS_PER_MILLI) as u64 }),
        tween: None,
        power_up: None,
        garbage: GarbageComponent { is_alive: true },
    }
}

/// The square that marks for a quarter of a second where something left
/// its bounds. It has no body.
pub fn create_out_of_bounds_explosion(position_component: PositionComponent) -> (blueprint:
    Blueprint)
    ensures
        blueprint == out_of_bounds_explosion_blueprint(position_component),
{
    let line_width: i64 = 20 * UNIT;
    let rect = Rect { x: -line_width / 2, y: -line_width / 2, w: line_width, h: line_width };
    Blueprint {
        position: position_component,
        shape: Shape::FilledRect { rect, color: hp_color() },
        body: None,
        bounds: None,
        explode_bounds: None,
        controllable: None,
        shooting: None,
        lifetime: Some(LifetimeComponent { duration: 250 * NANOS_PER_MILLI }),
        tween: None,
        power_up: None,
        garbage: GarbageComponent::default(),
    }
}

pub open spec fn fragment_blueprint(x: i64, y: i64, angle: i64, length: i64, speed: i64) -> Blueprint {
    let position = PositionComponent { x, y, angle };
    Blueprint {
        position,
        shape: Shape::Line { length, width: 2000, color: Color { r: 241, g: 103, b: 69 } },
        body: Some(
            RigidBodyDesc {
                position,
                velocity: Velocity::Polar { angle, speed },
                angular_velocity: 0,
                collider: None,
            },
        ),
        bounds: None,
        explode_bounds: None,
        controllable: None,
        shooting: None,
        lifetime: Some(LifetimeComponent { duration: (1000 * NANOS_PER_MILLI) as u64 }),
        tween: Some(
            TweenComponent {
                tween_type: Tween::SizeTween { ease: Ease::Cubic, starting: 1000, ending: 0 },
                elapsed: 0,
                duration: (1000 * NANOS_PER_MILLI) as u64,
            },
        ),
        power_up: None,
        garbage: GarbageComponent { is_alive: true },
    }
}

/// One fragment of a death explosion: a line of `length` that flies from
/// `(x, y)` along `angle` at `speed`, shrinks to nothing within a second
/// and then dies. Its body has no collider.
pub fn death_explosion_fragment(x: i64, y: i64, angle: i64, length: i64, speed: i64) -> (blueprint:
    Blueprint)
    ensures
        blueprint == fragment_blueprint(x, y, angle, length, speed),
{
    let position = PositionComponent { x, y, angle };
    let body = RigidBodyDesc {
        position,
        velocity: Velocity::Polar { angle, speed },
        angular_velocity: 0,
        collider: None,
    };
    let tween = TweenComponent {
        tween_type: Tween::SizeTween { ease: Ease::Cubic, starting: UNIT, ending: 0 },
        elapsed: 0,
        duration: 1000 * NANOS_PER_MILLI,
    };
    Blueprint {
        position,
        shape: Shape::Line { length, width: 2 * UNIT, color: hp_color() },
        body: Some(body),
        bounds: None,
        explode_bounds: None,
        controllable: None,
        shooting: None,
        lifetime: Some(LifetimeComponent { duration: 1000 * NANOS_PER_MILLI }),
        tween: Some(tween),
        power_up: None,
        garbage: GarbageComponent::default(),
    }
}

/// `blueprint` is a fragment of a death explosion at `(x, y)`: its heading
/// lies within a full turn, its length from 15 up to 30 pixels, its speed
/// from 100 up to 300 pixels per second.
pub open spec fn is_fragment(blueprint: Blueprint, x: i64, y: i64) -> bool {
    exists|angle: i64, length: i64, speed: i64|
        0 <= angle < FULL_TURN && 15_000 <= length < 30_000 && 100_000 <= speed < 300_000
            && blueprint == #[trigger] fragment_blueprint(x, y, angle, length, speed)
}

/// The fragments of a death explosion at `(x, y)`: from 4 up to 29 of them,
/// each with a heading, a length and a speed drawn at random.
pub fn create_death_explosion(x: i64, y: i64) -> (fragments: Vec<Blueprint>)
    ensures
        4 <= fragments@.len() < 30,
        forall|i: int| 0 <= i < fragments@.len() ==> is_fragment(#[trigger] fragments@[i], x, y),
{
    let mut rng = thread_rng();
    let count = gen_range(&mut rng, 4, 30);
    let mut fragments: Vec<Blueprint> = Vec::new();
    let mut i: i64 = 0;
    while i < count
        invariant
            0 <= i <= count,
            4 <= count < 30,
            fragments@.len() == i,
            forall|k: int| 0 <= k < fragments@.len() ==> is_fragment(#[trigger] fragments@[k], x, y),
        decreases count - i,
    {
        let angle = gen_range(&mut rng, 0, FULL_TURN);
        let length = gen_range(&mut rng, 15 * UNIT, 30 * UNIT);
        let speed = gen_range(&mut rng, 100 * UNIT, 300 * UNIT);
        let fragment = death_explosion_fragment(x, y, angle, length, speed);
        fragments.push(fragment);
        i += 1;
    }
    fragments
}

pub open spec fn ammo_blueprint(
    settings: GameSettings,
    from_left: bool,
    y: i64,
    angle: i64,
    speed: i64,
) -> Blueprint {
    let position = PositionComponent {
        x: if from_left {
            (-AMMO_OFFSET) as i64
        } else {
            (units(settings.width) + AMMO_OFFSET) as i64
        },
        y,
        angle,
    };
    Blueprint {
        position,
        shape: Shape::OutlinedRect {
            rect: Rect { x: -15_000i64, y: -15_000i64, w: 15_000, h: 15_000 },
            thickness: 3000,
            color: Color { r: 123, g: 200, b: 164 },
        },
        body: Some(
            RigidBodyDesc {
                position,
                velocity: Velocity::Linear {
                    x: if from_left {
                        speed
                    } else {
                        (-speed) as i64
                    },
                    y: 0,
                },
                angular_velocity: 2000,
                collider: Some(
                    ColliderDesc {
                        radius: 15_000,
                        collider_type: ColliderType::Ammo,
                        membership: AMMO_BODY_COLLISION_GROUP,
                        blacklist: None,
                    },
                ),
            },
        ),
        bounds: Some(
            BoundsComponent {
                x_min: (-AMMO_OFFSET) as i64,
                x_max: (units(settings.width) + AMMO_OFFSET) as i64,
                y_min: 0,
                y_max: units(settings.height) as i64,
            },
        ),
        explode_bounds: None,
        controllable: None,
        shooting: None,
        lifetime: None,
        tween: None,
        power_up: Some(PowerUpComponent { variant: PowerUp::Ammo }),
        garbage: GarbageComponent { is_alive: true },
    }
}

/// An ammo pickup that enters from the left or the right edge at height
/// `y`, drifts inward at `speed` and spins. It dies where it leaves the
/// arena widened by the offset on both sides.
pub fn ammo(settings: &GameSettings, from_left: bool, y: i64, angle: i64, speed: i64) -> (blueprint:
    Blueprint)
    requires
        speed > i64::MIN,
    ensures
        blueprint == ammo_blueprint(*settings, from_left, y, angle, speed),
{
    let width: i64 = settings.width as i64 * UNIT;
    let height: i64 = settings.height as i64 * UNIT;
    let x: i64 = if from_left {
        -AMMO_OFFSET
    } else {
        width + AMMO_OFFSET
    };
    let velocity: i64 = if from_left {
        speed
    } else {
        -speed
    };
    let radius: i64 = 15 * UNIT;
    let position = PositionComponent { x, y, angle };
    let collider = ColliderDesc {
        radius,
        collider_type: ColliderType::Ammo,
        membership: AMMO_BODY_COLLISION_GROUP,
        blacklist: None,
    };
    let body = RigidBodyDesc {
        position,
        velocity: Velocity::Linear { x: velocity, y: 0 },
        angular_velocity: 2 * UNIT,
        collider: Some(collider),
    };
    let bounds = BoundsComponent {
        x_min: -AMMO_OFFSET,
        x_max: width + AMMO_OFFSET,
        y_min: 0,
        y_max: height,
    };
    Blueprint {
        position,
        shape: Shape::OutlinedRect {
            rect: Rect { x: -radius, y: -radius, w: radius, h: radius },
            thickness: 3 * UNIT,
            color: ammo_color(),
        },
        body: Some(body),
        bounds: Some(bounds),
        explode_bounds: None,
        controllable: None,
        shooting: None,
        lifetime: None,
        tween: None,
        power_up: Some(PowerUpComponent { variant: PowerUp::Ammo }),
        garbage: GarbageComponent::default(),
    }
}

/// `blueprint` is an ammo pickup for an arena of these settings: it enters
/// from one of the two side edges, between the offset from the top and the
/// offset from the bottom, with a heading within a full turn and a speed
/// from 30 up to 100 pixels per second.
pub open spec fn is_ammo(blueprint: Blueprint, settings: GameSettings) -> bool {
    exists|from_left: bool, y: i64, angle: i64, speed: i64|
        AMMO_OFFSET <= y < units(settings.height) - AMMO_OFFSET && 0 <= angle < FULL_TURN && 30_000
            <= speed < 100_000 && blueprint == #[trigger] ammo_blueprint(
            settings,
            from_left,
            y,
            angle,
            speed,
        )
}

/// An ammo pickup at a random edge and height, with a random heading and
/// speed.
pub fn create_ammo(settings: &GameSettings) -> (blueprint: Blueprint)
    requires
        settings.height > 96,
    ensures
        is_ammo(blueprint, *settings),
{
    let mut rng = thread_rng();
    let from_left = random_bool();
    let height: i64 = settings.height as i64 * UNIT;
    let y = gen_range(&mut rng, AMMO_OFFSET, height - AMMO_OFFSET);
    let angle = gen_range(&mut rng, 0, FULL_TURN);
    let speed = gen_range(&mut rng, 30 * UNIT, 100 * UNIT);
    ammo(settings, from_left, y, angle, speed)
}

impl Blueprint {
    /// The row of a new entity made from this blueprint. The row holds a
    /// rigid body only where the blueprint asked for one and `handle` is
    /// the handle it was built under. Its mesh starts at full scale.
    pub open spec fn row_spec(self, entity: Entity, handle: Option<BodyHandle>) -> EntityRow {
        EntityRow {
            entity,
            position: Some(self.position),
            rigid_body: match (self.body, handle) {
                (Some(_), Some(h)) => Some(RigidBodyComponent { handle: h }),
                _ => None,
            },
            bounds: self.bounds,
            explode_bounds: self.explode_bounds,
            controllable: self.controllable,
            shooting: self.shooting,
            lifetime: self.lifetime,
            tween: self.tween,
            mesh: Some(MeshComponent { scale: UNIT }),
            power_up: self.power_up,
            follows: None,
            garbage: Some(self.garbage),
        }
    }

    /// The handle under which the new entity is entered in the handle
    /// index: that of its body, where the blueprint asked for one and it
    /// was built.
    pub open spec fn indexed_handle(self, handle: Option<BodyHandle>) -> Option<BodyHandle> {
        match (self.body, handle) {
            (Some(_), Some(h)) => Some(h),
            _ => None,
        }
    }

    pub fn row(&self, entity: Entity, handle: Option<BodyHandle>) -> (row: EntityRow)
        ensures
            row == self.row_spec(entity, handle),
    {
        let rigid_body = match (self.body, handle) {
            (Some(_), Some(h)) => Some(RigidBodyComponent { handle: h }),
            _ => None,
        };
        EntityRow {
            entity,
            position: Some(self.position),
            rigid_body,
            bounds: self.bounds,
            explode_bounds: self.explode_bounds,
            controllable: self.controllable,
            shooting: self.shooting,
            lifetime: self.lifetime,
            tween: self.tween,
            mesh: Some(MeshComponent { scale: UNIT }),
            power_up: self.power_up,
            follows: None,
            garbage: Some(self.garbage),
        }
    }
}

/// No row stands for `entity` yet.
pub open spec fn is_new_entity(entity: Entity, rows: Seq<EntityRow>) -> bool {
    forall|i: int| 0 <= i < rows.len() ==> (#[trigger] rows[i]).entity != entity
}

/// Adds the entity made from `blueprint` to the rows, and its body, if it
/// has one, to the handle index: a row and its index entry come into being
/// together.
pub fn spawn(
    blueprint: &Blueprint,
    entity: Entity,
    handle: Option<BodyHandle>,
    rows: &mut Vec<EntityRow>,
    physics: &mut PhysicsSim,
)
    ensures
        final(rows)@ == old(rows)@.push(blueprint.row_spec(entity, handle)),
        final(physics).bodies@ == (match blueprint.indexed_handle(handle) {
            Some(h) => old(physics).bodies@.insert(h, entity),
            None => old(physics).bodies@,
        }),
        is_new_entity(entity, old(rows)@) && distinct_entities(old(rows)@) && index_in_step(
            old(rows)@,
            old(physics).bodies@,
        ) ==> distinct_entities(final(rows)@) && index_in_step(
            final(rows)@,
            final(physics).bodies@,
        ),
{
    proof {
        if is_new_entity(entity, rows@) && distinct_entities(rows@) && index_in_step(
            rows@,
            physics.bodies@,
        ) {
            lemma_spawn_keeps_index_in_step(rows@, physics.bodies@, *blueprint, entity, handle);
        }
    }
    let row = blueprint.row(entity, handle);
    rows.push(row);
    match (blueprint.body, handle) {
        (Some(_), Some(h)) => {
            physics.register(h, entity);
        },
        _ => {},
    }
}

/// A row and its index entry come into being together: where the rows
/// have distinct entities and the index is in step with them, both still
/// hold once `spawn` has added a new entity.
pub proof fn lemma_spawn_keeps_index_in_step(
    rows: Seq<EntityRow>,
    index: Map<BodyHandle, Entity>,
    blueprint: Blueprint,
    entity: Entity,
    handle: Option<BodyHandle>,
)
    requires
        distinct_entities(rows),
        index_in_step(rows, index),
        is_new_entity(entity, rows),
    ensures
        distinct_entities(rows.push(blueprint.row_spec(entity, handle))),
        index_in_step(
            rows.push(blueprint.row_spec(entity, handle)),
            match blueprint.indexed_handle(handle) {
                Some(h) => index.insert(h, entity),
                None => index,
            },
        ),
{
    let row = blueprint.row_spec(entity, handle);
    let after = rows.push(row);
    let indexed = match blueprint.indexed_handle(handle) {
        Some(h) => index.insert(h, entity),
        None => index,
    };
    assert forall|h: BodyHandle| #[trigger] indexed.contains_key(h) implies exists|i: int|
        0 <= i < after.len() && (#[trigger] after[i]).entity == indexed[h] && after[i].rigid_body
            == Some(RigidBodyComponent { handle: h }) by {
        if blueprint.indexed_handle(handle) == Some(h) {
            assert(after[rows.len() as int] == row);
        } else {
            assert(index.contains_key(h));
            let k = choose|k: int|
                0 <= k < rows.len() && (#[trigger] rows[k]).entity == index[h] && rows[k].rigid_body
                    == Some(RigidBodyComponent { handle: h });
            assert(after[k] == rows[k]);
        }
    }
}

} // verus!
