//! Per-entity component data and the row that joins them.

use vstd::prelude::*;

verus! {

/// Fixed-point units per whole: per pixel, per radian and per unit of scale.
pub const UNIT: i64 = 1000;

/// Nanoseconds in one millisecond.
pub const NANOS_PER_MILLI: u64 = 1_000_000;

/// Nanoseconds in one second.
pub const NANOS_PER_SEC: u64 = 1_000_000_000;

/// Reference to a rigid body held by the physics engine.
pub type BodyHandle = u64;

/// Reference to a collider held by the physics engine.
pub type ColliderHandle = u64;

/// Identifier of an entity. It carries no data of its own.
#[derive(Clone, Copy, Debug, PartialEq, Eq, Structural)]
pub struct Entity(pub u32);

/// Where an entity is, in fixed-point pixels, and its heading in
/// thousandths of a radian.
#[derive(Clone, Copy, Debug, PartialEq, Eq, Structural)]
pub struct PositionComponent {
    pub x: i64,
    pub y: i64,
    pub angle: i64,
}

/// The rigid body that simulates an entity.
#[derive(Clone, Copy, Debug, PartialEq, Eq, Structural)]
pub struct RigidBodyComponent {
    pub handle: BodyHandle,
}

/// The collider attached to an entity.
#[derive(Clone, Copy, Debug, PartialEq, Eq, Structural)]
pub struct CollisionComponent {
    pub handle: ColliderHandle,
}

/// The rectangle an entity may occupy, in fixed-point pixels, both ends of
/// each axis included.
#[derive(Clone, Copy, Debug, PartialEq, Eq, Structural)]
pub struct BoundsComponent {
    pub x_min: i64,
    pub x_max: i64,
    pub y_min: i64,
    pub y_max: i64,
}

/// Marks an entity that leaves an explosion behind when it dies outside its
/// bounds.
#[derive(Clone, Copy, Debug, PartialEq, Eq, Structural)]
pub struct ExplodeBoundsComponent;

/// Marks the entity that input steers.
#[derive(Clone, Copy, Debug, PartialEq, Eq, Structural)]
pub struct ControllableComponent;

/// Makes an entity take the position of another.
#[derive(Clone, Copy, Debug, PartialEq, Eq, Structural)]
pub struct FollowsEntityComponent {
    pub target: Entity,
}

/// Soft-delete flag: an entity that is not alive is removed by the next
/// garbage pass.
#[derive(Clone, Copy, Debug, PartialEq, Eq, Structural)]
pub struct GarbageComponent {
    pub is_alive: bool,
}

impl Default for GarbageComponent {
    fn default() -> (g: GarbageComponent)
        ensures
            g.is_alive,
    {
        GarbageComponent { is_alive: true }
    }
}

/// Time left to live, in nanoseconds.
#[derive(Clone, Copy, Debug, PartialEq, Eq, Structural)]
pub struct LifetimeComponent {
    pub duration: u64,
}

/// How often an emitter releases a particle, in nanoseconds.
#[derive(Clone, Copy, Debug, PartialEq, Eq, Structural)]
pub struct ParticleEmitterComponent {
    pub frequency: u64,
}

/// The kinds of pickup.
#[derive(Clone, Copy, Debug, PartialEq, Eq, Structural)]
pub enum PowerUp {
    Ammo,
    Boost,
}

/// Marks an entity as a pickup of some kind.
#[derive(Clone, Copy, Debug, PartialEq, Eq, Structural)]
pub struct PowerUpComponent {
    pub variant: PowerUp,
}

/// Cooldown of a weapon: the interval between two shots and the time of the
/// last one, both in nanoseconds on the simulation clock.
#[derive(Clone, Copy, Debug, PartialEq, Eq, Structural)]
pub struct ShootingComponent {
    pub every: u64,
    pub last_shot_at: u64,
}

/// The easing curves.
#[derive(Clone, Copy, Debug, PartialEq, Eq, Structural)]
pub enum Ease {
    Cubic,
}

/// What a tween drives. `starting` and `ending` are fixed-point factors.
#[derive(Clone, Copy, Debug, PartialEq, Eq, Structural)]
pub enum Tween {
    SizeTween { ease: Ease, starting: i64, ending: i64 },
}

/// A time-based interpolation; `elapsed` and `duration` are in nanoseconds.
#[derive(Clone, Copy, Debug, PartialEq, Eq, Structural)]
pub struct TweenComponent {
    pub tween_type: Tween,
    pub elapsed: u64,
    pub duration: u64,
}

/// The part of an entity's render geometry that the simulation writes: its
/// scale on both axes, as a fixed-point factor.
#[derive(Clone, Copy, Debug, PartialEq, Eq, Structural)]
pub struct MeshComponent {
    pub scale: i64,
}

/// One entity with the components it owns. A system joins over the rows
/// that hold all the components it names.
#[derive(Clone, Copy, Debug, PartialEq, Eq, Structural)]
pub struct EntityRow {
    pub entity: Entity,
    pub position: Option<PositionComponent>,
    pub rigid_body: Option<RigidBodyComponent>,
    pub bounds: Option<BoundsComponent>,
    pub explode_bounds: Option<ExplodeBoundsComponent>,
    pub controllable: Option<ControllableComponent>,
    pub shooting: Option<ShootingComponent>,
    pub lifetime: Option<LifetimeComponent>,
    pub tween: Option<TweenComponent>,
    pub mesh: Option<MeshComponent>,
    pub power_up: Option<PowerUpComponent>,
    pub follows: Option<FollowsEntityComponent>,
    pub garbage: Option<GarbageComponent>,
}

impl EntityRow {
    /// A row for `entity` that owns no component.
    pub fn new(entity: Entity) -> (row: EntityRow)
        ensures
            row == Self::bare(entity),
    {
        EntityRow {
            entity,
            position: None,
            rigid_body: None,
            bounds: None,
            explode_bounds: None,
            controllable: None,
            shooting: None,
            lifetime: None,
            tween: None,
            mesh: None,
            power_up: None,
            follows: None,
            garbage: None,
        }
    }

    pub open spec fn bare(entity: Entity) -> EntityRow {
        EntityRow {
            entity,
            position: None,
            rigid_body: None,
            bounds: None,
            explode_bounds: None,
            controllable: None,
            shooting: None,
            lifetime: None,
            tween: None,
            mesh: None,
            power_up: None,
            follows: None,
            garbage: None,
        }
    }

    /// Whether the row is an ammo pickup.
    pub open spec fn is_ammo_pickup(self) -> bool {
        self.power_up == Some(PowerUpComponent { variant: PowerUp::Ammo })
    }

    /// Whether the garbage pass removes this row.
    pub open spec fn is_dead(self) -> bool {
        self.garbage matches Some(g) && !g.is_alive
    }
}

/// No two rows stand for the same entity.
pub open spec fn distinct_entities(rows: Seq<EntityRow>) -> bool {
    forall|i: int, j: int|
        0 <= i < rows.len() && 0 <= j < rows.len() && i != j ==> (#[trigger] rows[i]).entity != (
        #[trigger] rows[j]).entity
}

/// The handle index is in step with the rows: every handle in it is the
/// rigid body of a row, and names that row's entity.
pub open spec fn index_in_step(rows: Seq<EntityRow>, index: Map<BodyHandle, Entity>) -> bool {
    forall|h: BodyHandle| #[trigger]
        index.contains_key(h) ==> exists|i: int|
            0 <= i < rows.len() && (#[trigger] rows[i]).entity == index[h] && rows[i].rigid_body
                == Some(RigidBodyComponent { handle: h })
}

} // verus!
