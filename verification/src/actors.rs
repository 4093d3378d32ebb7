//! Free-standing actors: a player, its projectiles and its effects, each
//! with state of its own, updated one by one. An update returns the
//! actions that the game is to carry out.

use vstd::prelude::*;
use uuid::Uuid;
use crate::components::{BodyHandle, NANOS_PER_MILLI, UNIT};
use crate::entities::Velocity;
use crate::resources::Input;
use crate::utils::Color;

verus! {

/// `uuid::Uuid`, an identifier of 128 bits. Nothing inside it is seen
/// here; it is only handed on and compared.
#[verifier::external_type_specification]
#[verifier::external_body]
pub struct ExUuid(Uuid);

/// `uuid::Uuid::new_v4`: a random identifier. Nothing is claimed of it.
#[verifier::external_body]
fn new_id() -> (id: Uuid) {
    Uuid::new_v4()
}

/// `<uuid::Uuid as Clone>::clone`: the type is `Copy`, and its clone is the
/// identifier itself.
pub assume_specification[ <Uuid as Clone>::clone ](id: &Uuid) -> (copy: Uuid)
    ensures
        copy == *id,
;

/// What an update asks the game to do.
#[derive(Clone, Debug)]
pub enum GameAction {
    Nothing,
    CreateProjectile { projectile: Projectile },
    CreateEffect { effect: Effect },
    DestroyEffect { id: Uuid },
    DestroyProjectile { id: Uuid },
}

#[derive(Clone, Copy, Debug, PartialEq, Eq, Structural)]
pub enum EffectType {
    Shooting { color: Color },
}

/// A short-lived mark at a place; `lifetime` and `age` are in nanoseconds.
#[derive(Clone, Debug)]
pub struct Effect {
    pub id: Uuid,
    pub x: i64,
    pub y: i64,
    pub lifetime: u64,
    pub age: u64,
    pub effect_type: EffectType,
}

impl Effect {
    /// A new effect of age zero, under an identifier of its own.
    pub fn new(x: i64, y: i64, lifetime: u64, effect_type: EffectType) -> (effect: Effect)
        ensures
            effect.x == x,
            effect.y == y,
            effect.lifetime == lifetime,
            effect.age == 0,
            effect.effect_type == effect_type,
    {
        Effect { id: new_id(), x, y, lifetime, age: 0, effect_type }
    }

    /// Whether the effect has reached its lifetime.
    pub fn is_dead(&self) -> (dead: bool)
        ensures
            dead == (self.age >= self.lifetime),
    {
        self.age >= self.lifetime
    }

    /// The age after a frame of `dt`; it stops at the largest time that
    /// can be held.
    pub open spec fn age_after(self, dt: u64) -> u64 {
        if self.age + dt > u64::MAX {
            u64::MAX
        } else {
            (self.age + dt) as u64
        }
    }

    /// Ages the effect by `dt` nanoseconds. Once it has reached its
    /// lifetime it asks to be destroyed, and for nothing before.
    pub fn update(&mut self, dt: u64) -> (actions: Vec<GameAction>)
        ensures
            final(self).age == old(self).age_after(dt),
            final(self).id == old(self).id,
            final(self).x == old(self).x,
            final(self).y == old(self).y,
            final(self).lifetime == old(self).lifetime,
            final(self).effect_type == old(self).effect_type,
            actions@ == (if old(self).age_after(dt) >= old(self).lifetime {
                seq![GameAction::DestroyEffect { id: old(self).id }]
            } else {
                Seq::<GameAction>::empty()
            }),
    {
        let mut actions: Vec<GameAction> = Vec::new();
        self.age = self.age.saturating_add(dt);
        if self.age >= self.lifetime {
            actions.push(GameAction::DestroyEffect { id: self.id });
        }
        assert(actions@ =~= (if self.age >= self.lifetime {
            seq![GameAction::DestroyEffect { id: self.id }]
        } else {
            Seq::<GameAction>::empty()
        }));
        actions
    }
}

#[derive(Clone, Copy, Debug, PartialEq, Eq, Structural)]
pub enum ProjectileType {
    Basic { radius: i64 },
}

/// A projectile that flies at `velocity` along `angle`, simulated by the
/// rigid body under its handle.
#[derive(Clone, Debug)]
pub struct Projectile {
    pub id: Uuid,
    pub rigid_body_handle: BodyHandle,
    pub x: i64,
    pub y: i64,
    pub velocity: i64,
    pub angle: i64,
    pub projectile_type: ProjectileType,
}

impl Projectile {
    /// Radius of the ball that collides for a projectile.
    pub const COLLIDER_RADIUS: i64 = 10 * UNIT;

    /// A new projectile for the body built under `rigid_body_handle`, under
    /// an identifier of its own.
    pub fn new(
        rigid_body_handle: BodyHandle,
        x: i64,
        y: i64,
        velocity: i64,
        angle: i64,
        projectile_type: ProjectileType,
    ) -> (projectile: Projectile)
        ensures
            projectile.rigid_body_handle == rigid_body_handle,
            projectile.x == x,
            projectile.y == y,
            projectile.velocity == velocity,
            projectile.angle == angle,
            projectile.projectile_type == projectile_type,
    {
        Projectile { id: new_id(), rigid_body_handle, x, y, velocity, angle, projectile_type }
    }

    /// Moves the projectile to where its body is, and returns the velocity
    /// to give the body: its own speed along its own heading. It asks for
    /// no action.
    pub fn update(&mut self, body_x: i64, body_y: i64) -> (next: (Velocity, Vec<GameAction>))
        ensures
            final(self).x == body_x,
            final(self).y == body_y,
            final(self).id == old(self).id,
            final(self).rigid_body_handle == old(self).rigid_body_handle,
            final(self).velocity == old(self).velocity,
            final(self).angle == old(self).angle,
            final(self).projectile_type == old(self).projectile_type,
            next.0 == (Velocity::Polar { angle: old(self).angle, speed: old(self).velocity }),
            next.1@.len() == 0,
    {
        let actions: Vec<GameAction> = Vec::new();
        self.x = body_x;
        self.y = body_y;
        (Velocity::Polar { angle: self.angle, speed: self.velocity }, actions)
    }
}

/// The player's ship: it speeds up to its top speed and turns with the
/// input.
#[derive(Clone, Copy, Debug, PartialEq, Eq, Structural)]
pub struct Player {
    pub rigid_body_handle: BodyHandle,
    pub x: i64,
    pub y: i64,
    pub velocity: i64,
    pub max_velocity: i64,
    pub acceleration: i64,
    pub angle: i64,
    pub radius: i64,
    pub thickness: i64,
}

impl Player {
    /// What one frame turns the heading by.
    pub const TURN: i64 = 50;

    /// Speed of what the player shoots.
    pub const SHOT_SPEED: i64 = 400 * UNIT;

    /// How long the flash of a shot lasts, in nanoseconds.
    pub const FLASH_LIFETIME: u64 = 240 * NANOS_PER_MILLI;

    pub open spec fn new_spec(rigid_body_handle: BodyHandle, width: u32, height: u32) -> Player {
        Player {
            rigid_body_handle,
            x: (width as int * 500) as i64,
            y: (height as int * 500) as i64,
            velocity: 0,
            max_velocity: 200_000,
            acceleration: 100_000,
            angle: 1571,
            radius: 10_000,
            thickness: 2000,
        }
    }

    /// The player at rest in the middle of an arena of `width` by `height`
    /// pixels, heading a quarter turn up, for the body built under
    /// `rigid_body_handle`.
    pub fn new(rigid_body_handle: BodyHandle, width: u32, height: u32) -> (player: Player)
        ensures
            player == Self::new_spec(rigid_body_handle, width, height),
    {
        Player {
            rigid_body_handle,
            x: width as i64 * 500,
            y: height as i64 * 500,
            velocity: 0,
            max_velocity: 200 * UNIT,
            acceleration: 100 * UNIT,
            angle: 1571,
            radius: 10 * UNIT,
            thickness: 2 * UNIT,
        }
    }

    /// The heading after a frame: a turn down where left is held, up where
    /// only right is held.
    pub open spec fn angle_after(self, input: Input) -> int {
        if input.left {
            self.angle - Self::TURN
        } else if input.right {
            self.angle + Self::TURN
        } else {
            self.angle as int
        }
    }

    /// A tenth of `amount`, rounded toward zero.
    pub open spec fn tenth(amount: int) -> int {
        if amount >= 0 {
            amount / 10
        } else {
            -((-amount) / 10)
        }
    }

    /// The speed after a frame: a tenth of the acceleration more, at most
    /// the top speed.
    pub open spec fn velocity_after(self) -> int {
        if self.velocity + Self::tenth(self.acceleration as int) < self.max_velocity {
            self.velocity + Self::tenth(self.acceleration as int)
        } else {
            self.max_velocity as int
        }
    }

    /// Whether a frame keeps heading and speed within the range of the
    /// integers that hold them.
    pub open spec fn can_update(self) -> bool {
        i64::MIN + Self::TURN <= self.angle <= i64::MAX - Self::TURN && i64::MIN <= self.velocity
            + Self::tenth(self.acceleration as int) <= i64::MAX
    }

    /// One frame: the player turns with the input, speeds up, and stands
    /// where its body is. Returns the velocity to give the body, along the
    /// new heading at the new speed. `shot` is the handle of the body built
    /// for a projectile while attack is held: the actions then ask for that
    /// projectile and for the flash of the shot, both where the player is,
    /// and for nothing otherwise.
    pub fn update(&mut self, input: &Input, body_x: i64, body_y: i64, shot: Option<BodyHandle>) -> (next:
        (Velocity, Vec<GameAction>))
        requires
            old(self).can_update(),
        ensures
            *final(self) == (Player {
                angle: old(self).angle_after(*input) as i64,
                velocity: old(self).velocity_after() as i64,
                x: body_x,
                y: body_y,
                ..*old(self)
            }),
            next.0 == (Velocity::Polar { angle: final(self).angle, speed: final(self).velocity }),
            input.attack && shot is Some ==> Self::is_shot(next.1@, *final(self), shot.unwrap()),
            !(input.attack && shot is Some) ==> next.1@.len() == 0,
    {
        if input.left {
            self.angle = self.angle - Self::TURN;
        } else if input.right {
            self.angle = self.angle + Self::TURN;
        }
        let step: i64 = if self.acceleration >= 0 {
            self.acceleration / 10
        } else {
            (-((-(self.acceleration as i128)) / 10)) as i64
        };
        let faster = self.velocity + step;
        self.velocity = if faster < self.max_velocity {
            faster
        } else {
            self.max_velocity
        };
        self.x = body_x;
        self.y = body_y;
        let velocity = Velocity::Polar { angle: self.angle, speed: self.velocity };
        let actions = match (input.attack, shot) {
            (true, Some(handle)) => self.shoot(handle),
            _ => Vec::new(),
        };
        (velocity, actions)
    }

    /// `actions` are those of a shot by `player`: a projectile for the
    /// body under `handle` and a red flash, in this order, both at the
    /// player's place, the projectile along the player's heading.
    pub open spec fn is_shot(actions: Seq<GameAction>, player: Player, handle: BodyHandle) -> bool {
        &&& actions.len() == 2
        &&& actions[0] matches GameAction::CreateProjectile { projectile }
        &&& projectile.rigid_body_handle == handle
        &&& projectile.x == player.x
        &&& projectile.y == player.y
        &&& projectile.velocity == Self::SHOT_SPEED
        &&& projectile.angle == player.angle
        &&& projectile.projectile_type == (ProjectileType::Basic { radius: 2000 })
        &&& actions[1] matches GameAction::CreateEffect { effect }
        &&& effect.x == player.x
        &&& effect.y == player.y
        &&& effect.lifetime == Self::FLASH_LIFETIME
        &&& effect.age == 0
        &&& effect.effect_type == (EffectType::Shooting { color: Color { r: 255, g: 0, b: 0 } })
    }

    /// The actions of one shot, for the projectile body built under
    /// `handle`.
    pub fn shoot(&self, handle: BodyHandle) -> (actions: Vec<GameAction>)
        ensures
            Self::is_shot(actions@, *self, handle),
    {
        let create_projectile_action = GameAction::CreateProjectile {
            projectile: Projectile::new(
                handle,
                self.x,
                self.y,
                Self::SHOT_SPEED,
                self.angle,
                ProjectileType::Basic { radius: 2 * UNIT },
            ),
        };
        let create_shoot_effect = GameAction::CreateEffect {
            effect: Effect::new(
                self.x,
                self.y,
                Self::FLASH_LIFETIME,
                EffectType::Shooting { color: Color { r: 255, g: 0, b: 0 } },
            ),
        };
        let mut actions: Vec<GameAction> = Vec::new();
        actions.push(create_projectile_action);
        actions.push(create_shoot_effect);
        actions
    }
}

} // verus!
