//! Cadence of the weapons.

use vstd::prelude::*;
use crate::components::{EntityRow, ShootingComponent};
use crate::entities::{create_projectile, projectile_blueprint, Blueprint};
use crate::resources::GameSettings;

verus! {

pub struct ShootingSystem;

impl ShootingSystem {
    /// Time from `earlier` to `now`, zero where `earlier` is not earlier.
    pub open spec fn since(now: u64, earlier: u64) -> int {
        if now >= earlier {
            now - earlier
        } else {
            0
        }
    }

    /// Whether the row fires at `now`: it holds a position and a weapon
    /// whose interval has passed since its last shot.
    pub open spec fn fires(row: EntityRow, now: u64) -> bool {
        match (row.position, row.shooting) {
            (Some(_), Some(shooting)) => Self::since(now, shooting.last_shot_at) >= shooting.every,
            _ => false,
        }
    }

    /// The row after the pass: a row that fires has shot last at `now`.
    pub open spec fn step_spec(row: EntityRow, now: u64) -> EntityRow {
        if Self::fires(row, now) {
            EntityRow {
                shooting: Some(
                    ShootingComponent { every: row.shooting.unwrap().every, last_shot_at: now },
                ),
                ..row
            }
        } else {
            row
        }
    }

    /// The projectile that the row fires, from its own position and along
    /// its own heading.
    pub open spec fn projectile_of(row: EntityRow, now: u64, settings: GameSettings) -> Option<
        Blueprint,
    > {
        if Self::fires(row, now) {
            Some(projectile_blueprint(settings, row.position.unwrap()))
        } else {
            None
        }
    }

    /// The projectiles that the rows fire, in the order of the rows.
    pub open spec fn projectiles_of(rows: Seq<EntityRow>, now: u64, settings: GameSettings) -> Seq<
        Blueprint,
    >
        decreases rows.len(),
    {
        if rows.len() == 0 {
            Seq::empty()
        } else {
            let earlier = Self::projectiles_of(rows.drop_last(), now, settings);
            match Self::projectile_of(rows.last(), now, settings) {
                Some(projectile) => earlier.push(projectile),
                None => earlier,
            }
        }
    }

    pub fn step(row: EntityRow, now: u64, settings: &GameSettings) -> (next: (
        EntityRow,
        Option<Blueprint>,
    ))
        ensures
            next.0 == Self::step_spec(row, now),
            next.1 == Self::projectile_of(row, now, *settings),
    {
        match (row.position, row.shooting) {
            (Some(position), Some(shooting)) => {
                let duration_since_last_shot = now.saturating_sub(shooting.last_shot_at);
                if duration_since_last_shot >= shooting.every {
                    let fired = EntityRow {
                        shooting: Some(
                            ShootingComponent { every: shooting.every, last_shot_at: now },
                        ),
                        ..row
                    };
                    (fired, Some(create_projectile(settings, position)))
                } else {
                    (row, None)
                }
            },
            _ => (row, None),
        }
    }

    /// Fires every weapon whose interval has passed at `now`, and returns
    /// the projectiles to create.
    pub fn run(&self, now: u64, settings: &GameSettings, rows: &mut Vec<EntityRow>) -> (projectiles:
        Vec<Blueprint>)
        ensures
            final(rows)@.len() == old(rows)@.len(),
            forall|i: int|
                0 <= i < old(rows)@.len() ==> #[trigger] final(rows)@[i] == Self::step_spec(
                    old(rows)@[i],
                    now,
                ),
            projectiles@ == Self::projectiles_of(old(rows)@, now, *settings),
    {
        let n = rows.len();
        let mut projectiles: Vec<Blueprint> = Vec::new();
        let mut i: usize = 0;
        while i < n
            invariant
                i <= n,
                rows@.len() == n,
                n == old(rows)@.len(),
                forall|j: int|
                    0 <= j < i ==> #[trigger] rows@[j] == Self::step_spec(old(rows)@[j], now),
                forall|j: int| i <= j < n ==> #[trigger] rows@[j] == old(rows)@[j],
                projectiles@ == Self::projectiles_of(
                    old(rows)@.subrange(0, i as int),
                    now,
                    *settings,
                ),
            decreases n - i,
        {
            proof {
                assert(old(rows)@.subrange(0, i as int + 1).drop_last() =~= old(rows)@.subrange(
                    0,
                    i as int,
                ));
            }
            let (next, projectile) = Self::step(rows[i], now, settings);
            rows.set(i, next);
            match projectile {
                Some(blueprint) => {
                    projectiles.push(blueprint);
                },
                None => {},
            }
            i += 1;
        }
        proof {
            assert(old(rows)@.subrange(0, n as int) =~= old(rows)@);
        }
        projectiles
    }
}

} // verus!
