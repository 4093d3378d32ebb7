//! Enforcement of entity bounds.

use vstd::prelude::*;
use crate::components::{BoundsComponent, EntityRow, GarbageComponent, PositionComponent};
use crate::entities::{create_out_of_bounds_explosion, out_of_bounds_explosion_blueprint, Blueprint};

verus! {

pub struct BoundsSystem;

impl BoundsSystem {
    /// Whether a position lies outside a rectangle on either axis.
    pub open spec fn outside(position: PositionComponent, bounds: BoundsComponent) -> bool {
        position.x < bounds.x_min || position.x > bounds.x_max || position.y < bounds.y_min
            || position.y > bounds.y_max
    }

    /// Whether the row has left its bounds: it holds bounds, a position
    /// outside them, and a garbage flag to mark.
    pub open spec fn has_left(row: EntityRow) -> bool {
        match (row.bounds, row.position, row.garbage) {
            (Some(bounds), Some(position), Some(_)) => Self::outside(position, bounds),
            _ => false,
        }
    }

    /// The row after the pass: dead where it has left its bounds, as it was
    /// anywhere else.
    pub open spec fn step_spec(row: EntityRow) -> EntityRow {
        if Self::has_left(row) {
            EntityRow { garbage: Some(GarbageComponent { is_alive: false }), ..row }
        } else {
            row
        }
    }

    /// The explosion that the row leaves behind: one at the place where a
    /// row tagged for it has left its bounds, with heading zero.
    pub open spec fn explosion_of(row: EntityRow) -> Option<Blueprint> {
        if Self::has_left(row) && row.explode_bounds is Some {
            Some(
                out_of_bounds_explosion_blueprint(
                    PositionComponent {
                        x: row.position.unwrap().x,
                        y: row.position.unwrap().y,
                        angle: 0,
                    },
                ),
            )
        } else {
            None
        }
    }

    /// The explosions that the rows leave behind, in the order of the rows.
    pub open spec fn explosions_of(rows: Seq<EntityRow>) -> Seq<Blueprint>
        decreases rows.len(),
    {
        if rows.len() == 0 {
            Seq::empty()
        } else {
            let earlier = Self::explosions_of(rows.drop_last());
            match Self::explosion_of(rows.last()) {
                Some(explosion) => earlier.push(explosion),
                None => earlier,
            }
        }
    }

    pub fn step(row: EntityRow) -> (next: (EntityRow, Option<Blueprint>))
        ensures
            next.0 == Self::step_spec(row),
            next.1 == Self::explosion_of(row),
    {
        match (row.bounds, row.position, row.garbage) {
            (Some(bounds), Some(position), Some(_)) => {
                let out_of_bounds_x = position.x < bounds.x_min || position.x > bounds.x_max;
                let out_of_bounds_y = position.y < bounds.y_min || position.y > bounds.y_max;
                if out_of_bounds_x || out_of_bounds_y {
                    let marked = EntityRow {
                        garbage: Some(GarbageComponent { is_alive: false }),
                        ..row
                    };
                    let explosion = match row.explode_bounds {
                        Some(_) => Some(
                            create_out_of_bounds_explosion(
                                PositionComponent { x: position.x, y: position.y, angle: 0 },
                            ),
                        ),
                        None => None,
                    };
                    (marked, explosion)
                } else {
                    (row, None)
                }
            },
            _ => (row, None),
        }
    }

    /// Marks every row dead that has left its bounds, and returns the
    /// explosions to create for those tagged to explode.
    pub fn run(&self, rows: &mut Vec<EntityRow>) -> (explosions: Vec<Blueprint>)
        ensures
            final(rows)@.len() == old(rows)@.len(),
            forall|i: int|
                0 <= i < old(rows)@.len() ==> #[trigger] final(rows)@[i] == Self::step_spec(
                    old(rows)@[i],
                ),
            explosions@ == Self::explosions_of(old(rows)@),
    {
        let n = rows.len();
        let mut explosions: Vec<Blueprint> = Vec::new();
        let mut i: usize = 0;
        while i < n
            invariant
                i <= n,
                rows@.len() == n,
                n == old(rows)@.len(),
                forall|j: int| 0 <= j < i ==> #[trigger] rows@[j] == Self::step_spec(old(rows)@[j]),
                forall|j: int| i <= j < n ==> #[trigger] rows@[j] == old(rows)@[j],
                explosions@ == Self::explosions_of(old(rows)@.subrange(0, i as int)),
            decreases n - i,
        {
            proof {
                assert(old(rows)@.subrange(0, i as int + 1).drop_last() =~= old(rows)@.subrange(
                    0,
                    i as int,
                ));
            }
            let (next, explosion) = Self::step(rows[i]);
            rows.set(i, next);
            match explosion {
                Some(blueprint) => {
                    explosions.push(blueprint);
                },
                None => {},
            }
            i += 1;
        }
        proof {
            assert(old(rows)@.subrange(0, n as int) =~= old(rows)@);
        }
        explosions
    }

    /// The nearest position inside the rectangle: the policy for hard
    /// walls. Where a rectangle is empty on an axis its lower end wins.
    pub open spec fn clamp_spec(position: PositionComponent, bounds: BoundsComponent) -> PositionComponent {
        PositionComponent {
            x: if position.x < bounds.x_min || bounds.x_max < bounds.x_min {
                bounds.x_min
            } else if position.x > bounds.x_max {
                bounds.x_max
            } else {
                position.x
            },
            y: if position.y < bounds.y_min || bounds.y_max < bounds.y_min {
                bounds.y_min
            } else if position.y > bounds.y_max {
                bounds.y_max
            } else {
                position.y
            },
            angle: position.angle,
        }
    }

    pub fn clamp(position: PositionComponent, bounds: &BoundsComponent) -> (clamped:
        PositionComponent)
        ensures
            clamped == Self::clamp_spec(position, *bounds),
    {
        let capped_x = if position.x < bounds.x_max {
            position.x
        } else {
            bounds.x_max
        };
        let clamped_x = if capped_x > bounds.x_min {
            capped_x
        } else {
            bounds.x_min
        };
        let capped_y = if position.y < bounds.y_max {
            position.y
        } else {
            bounds.y_max
        };
        let clamped_y = if capped_y > bounds.y_min {
            capped_y
        } else {
            bounds.y_min
        };
        PositionComponent { x: clamped_x, y: clamped_y, angle: position.angle }
    }

    /// A row that has left its bounds is dead after the same pass, and
    /// where it is tagged to explode the pass leaves exactly one explosion
    /// for it, at the place where it was found.
    pub proof fn lemma_exit_kills_and_explodes_once(row: EntityRow)
        requires
            Self::has_left(row),
        ensures
            Self::step_spec(row).is_dead(),
            row.explode_bounds is Some ==> Self::explosions_of(seq![row]).len() == 1
                && Self::explosions_of(seq![row])[0].position == (PositionComponent {
                x: row.position.unwrap().x,
                y: row.position.unwrap().y,
                angle: 0,
            }),
            row.explode_bounds is None ==> Self::explosions_of(seq![row]).len() == 0,
    {
        let rows = seq![row];
        assert(rows.drop_last() =~= Seq::<EntityRow>::empty());
        assert(rows.last() == row);
        reveal_with_fuel(BoundsSystem::explosions_of, 2);
    }
}

} // verus!
