//! Shared resources of one simulation.

use vstd::prelude::*;
use std::collections::HashMap;
use crate::components::{BodyHandle, Entity, NANOS_PER_MILLI, NANOS_PER_SEC};

verus! {

/// Time that the current frame covers, in nanoseconds.
#[derive(Clone, Copy, Debug, PartialEq, Eq, Structural)]
pub struct UpdateTime(pub u64);

impl UpdateTime {
    /// The time that the physics world is advanced by: the whole time of
    /// the frame, in nanoseconds.
    pub fn timestep_nanos(&self) -> (nanos: u64)
        ensures
            nanos == self.0,
    {
        self.0
    }

    /// The frame time as whole seconds and the nanoseconds beyond them.
    pub fn seconds_and_nanos(&self) -> (parts: (u64, u32))
        ensures
            parts.0 == self.0 / NANOS_PER_SEC,
            parts.1 == self.0 % NANOS_PER_SEC,
            parts.0 * NANOS_PER_SEC + parts.1 == self.0,
    {
        (self.0 / NANOS_PER_SEC, (self.0 % NANOS_PER_SEC) as u32)
    }
}

impl Default for UpdateTime {
    fn default() -> (t: UpdateTime)
        ensures
            t.0 == 0,
    {
        UpdateTime(0)
    }
}

pub const PLAYER_BODY_COLLISION_GROUP: usize = 0;

pub const PLAYER_PROJECTILE_COLLISION_GROUP: usize = 1;

pub const AMMO_BODY_COLLISION_GROUP: usize = 2;

/// What a collider stands for; the physics engine carries it as the
/// collider's label.
#[derive(Clone, Copy, Debug, PartialEq, Eq, Structural)]
pub enum ColliderType {
    Player,
    PlayerProjectile,
    Ammo,
}

/// Whether two strings hold the same characters.
fn same_text(a: &str, b: &str) -> (same: bool)
    ensures
        same == (a@ == b@),
{
    let n = a.unicode_len();
    if n != b.unicode_len() {
        return false;
    }
    let mut i: usize = 0;
    while i < n
        invariant
            i <= n,
            n == a@.len(),
            n == b@.len(),
            forall|j: int| 0 <= j < i ==> a@[j] == b@[j],
        decreases n - i,
    {
        if a.get_char(i) != b.get_char(i) {
            return false;
        }
        i += 1;
    }
    assert(a@ =~= b@);
    true
}

/// The text that rejects a label, with the label between its two fixed
/// parts.
fn unknown_label(s: &str) -> (message: String)
    ensures
        message@ == ColliderType::rejection(s@),
{
    let message = "Unable to parse ".to_owned().concat(s).concat(" as ColliderType");
    assert(message@ =~= ColliderType::rejection(s@));
    message
}

impl ColliderType {
    /// The label of a collider type.
    pub open spec fn label(self) -> Seq<char> {
        match self {
            ColliderType::Player => "Player"@,
            ColliderType::PlayerProjectile => "PlayerProjectile"@,
            ColliderType::Ammo => "Ammo"@,
        }
    }

    /// The collider type that a label names, if any.
    pub open spec fn of_label(s: Seq<char>) -> Option<ColliderType> {
        if s == "Player"@ {
            Some(ColliderType::Player)
        } else if s == "PlayerProjectile"@ {
            Some(ColliderType::PlayerProjectile)
        } else if s == "Ammo"@ {
            Some(ColliderType::Ammo)
        } else {
            None
        }
    }

    /// The text that rejects a label.
    pub open spec fn rejection(s: Seq<char>) -> Seq<char> {
        "Unable to parse "@ + s + " as ColliderType"@
    }

    /// Reads a label. Exactly the three labels are accepted, in this
    /// spelling; anything else is an error that quotes the input.
    pub fn parse(s: &str) -> (parsed: Result<ColliderType, String>)
        ensures
            match Self::of_label(s@) {
                Some(t) => parsed == Ok::<ColliderType, String>(t),
                None => parsed matches Err(message) && message@ == Self::rejection(s@),
            },
    {
        if same_text(s, "Player") {
            Ok(ColliderType::Player)
        } else if same_text(s, "PlayerProjectile") {
            Ok(ColliderType::PlayerProjectile)
        } else if same_text(s, "Ammo") {
            Ok(ColliderType::Ammo)
        } else {
            Err(unknown_label(s))
        }
    }

    /// The label that `parse` reads back as this type.
    pub fn to_string(&self) -> (text: String)
        ensures
            text@ == self.label(),
    {
        match self {
            ColliderType::Player => "Player".to_owned(),
            ColliderType::PlayerProjectile => "PlayerProjectile".to_owned(),
            ColliderType::Ammo => "Ammo".to_owned(),
        }
    }

    /// Every collider type is read back from its own label.
    pub proof fn lemma_label_round_trip(t: ColliderType)
        ensures
            Self::of_label(t.label()) == Some(t),
    {
        reveal_strlit("Player");
        reveal_strlit("PlayerProjectile");
        reveal_strlit("Ammo");
        assert("Player"@.len() == 6);
        assert("PlayerProjectile"@.len() == 16);
        assert("Ammo"@.len() == 4);
    }
}

impl std::str::FromStr for ColliderType {
    type Err = String;

    fn from_str(s: &str) -> (parsed: Result<Self, Self::Err>)
        ensures
            match ColliderType::of_label(s@) {
                Some(t) => parsed == Ok::<ColliderType, String>(t),
                None => parsed matches Err(message) && message@ == ColliderType::rejection(s@),
            },
    {
        ColliderType::parse(s)
    }
}

/// The collisions that gameplay reacts to, with the entities involved.
#[derive(Clone, Copy, Debug, PartialEq, Eq, Structural)]
pub enum CollisionType {
    PlayerAmmo { player: Entity, ammo: Entity },
}

/// A classified collision and where it happened, in fixed-point pixels.
#[derive(Clone, Copy, Debug, PartialEq, Eq, Structural)]
pub struct CollisionEvent {
    pub collision_type: CollisionType,
    pub x: i64,
    pub y: i64,
}

/// Snapshot of the steering and fire keys.
#[derive(Clone, Copy, Debug, PartialEq, Eq, Structural)]
pub struct Input {
    pub up: bool,
    pub down: bool,
    pub left: bool,
    pub right: bool,
    pub attack: bool,
}

impl Input {
    /// No key is held.
    pub fn new() -> (input: Input)
        ensures
            !input.up && !input.down && !input.left && !input.right && !input.attack,
    {
        Input { up: false, down: false, left: false, right: false, attack: false }
    }
}

impl Default for Input {
    fn default() -> (input: Input)
        ensures
            !input.up && !input.down && !input.left && !input.right && !input.attack,
    {
        Input::new()
    }
}

/// Size of the arena in whole pixels, and the factor the canvas is drawn at.
#[derive(Clone, Copy, Debug, PartialEq, Eq, Structural)]
pub struct GameSettings {
    pub width: u32,
    pub height: u32,
    pub scale: u32,
}

impl Default for GameSettings {
    fn default() -> (settings: GameSettings)
        ensures
            settings.width == 1920,
            settings.height == 1080,
            settings.scale == 1,
    {
        GameSettings { width: 1920, height: 1080, scale: 1 }
    }
}

/// Cadence and cap of ammo pickups; times are in nanoseconds on the
/// simulation clock.
#[derive(Clone, Copy, Debug, PartialEq, Eq, Structural)]
pub struct SpawnInfo {
    pub ammo_last: u64,
    pub ammo_every: u64,
    pub ammo_count: u32,
    pub ammo_max: u32,
}

impl SpawnInfo {
    /// The cadence a simulation starts with at time `now`: a pickup every
    /// hundred milliseconds, at most four alive, none yet.
    pub fn new(now: u64) -> (info: SpawnInfo)
        ensures
            info.ammo_last == now,
            info.ammo_every == 100 * NANOS_PER_MILLI,
            info.ammo_count == 0,
            info.ammo_max == 4,
            info.within_cap(),
    {
        SpawnInfo { ammo_last: now, ammo_every: 100 * NANOS_PER_MILLI, ammo_count: 0, ammo_max: 4 }
    }

    /// No more pickups are counted alive than the cap allows.
    pub open spec fn within_cap(self) -> bool {
        self.ammo_count <= self.ammo_max
    }
}

/// The handle index of the physics world: which entity each registered
/// rigid body belongs to.
pub struct PhysicsSim {
    pub bodies: HashMap<BodyHandle, Entity>,
}

impl PhysicsSim {
    pub fn new() -> (sim: PhysicsSim)
        ensures
            sim.bodies@ == Map::<BodyHandle, Entity>::empty(),
    {
        PhysicsSim { bodies: HashMap::new() }
    }

    /// Records that `handle` is the body of `entity`.
    pub fn register(&mut self, handle: BodyHandle, entity: Entity)
        ensures
            final(self).bodies@ == old(self).bodies@.insert(handle, entity),
    {
        broadcast use vstd::std_specs::hash::group_hash_axioms;

        self.bodies.insert(handle, entity);
    }

    /// The entity that `handle` is registered for.
    pub fn entity_of(&self, handle: BodyHandle) -> (entity: Option<Entity>)
        ensures
            entity == (if self.bodies@.contains_key(handle) {
                Some(self.bodies@[handle])
            } else {
                None
            }),
    {
        broadcast use vstd::std_specs::hash::group_hash_axioms;

        match self.bodies.get(&handle) {
            Some(entity) => Some(*entity),
            None => None,
        }
    }

    /// Forgets `handle`.
    pub fn release(&mut self, handle: BodyHandle)
        ensures
            final(self).bodies@ == old(self).bodies@.remove(handle),
    {
        broadcast use vstd::std_specs::hash::group_hash_axioms;

        self.bodies.remove(&handle);
    }
}

impl Default for PhysicsSim {
    fn default() -> (sim: PhysicsSim)
        ensures
            sim.bodies@ == Map::<BodyHandle, Entity>::empty(),
    {
        PhysicsSim::new()
    }
}

} // verus!
