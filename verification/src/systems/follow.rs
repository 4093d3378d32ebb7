//! Entities that take the position of another.

use vstd::prelude::*;
use crate::components::{Entity, EntityRow, PositionComponent};

verus! {

pub struct FollowEntitySystem;

impl FollowEntitySystem {
    /// Row `i` is the first of the rows that stands for `entity`.
    pub open spec fn stands_first(rows: Seq<EntityRow>, i: int, entity: Entity) -> bool {
        0 <= i < rows.len() && rows[i].entity == entity && forall|j: int|
            0 <= j < i ==> (#[trigger] rows[j]).entity != entity
    }

    /// The position of `entity`: that of the first row that stands for it,
    /// none where no row does or that row has none.
    pub open spec fn position_of(rows: Seq<EntityRow>, entity: Entity) -> Option<PositionComponent> {
        if exists|i: int| Self::stands_first(rows, i, entity) {
            rows[choose|i: int| Self::stands_first(rows, i, entity)].position
        } else {
            None
        }
    }

    /// The rows once row `i` has followed: where it follows a target and
    /// both have a position, it stands where its target stands, heading
    /// included. Anything else is left alone.
    pub open spec fn follow_at(rows: Seq<EntityRow>, i: int) -> Seq<EntityRow> {
        match (rows[i].follows, rows[i].position) {
            (Some(follows), Some(_)) => match Self::position_of(rows, follows.target) {
                Some(position) => rows.update(i, EntityRow { position: Some(position), ..rows[i] }),
                None => rows,
            },
            _ => rows,
        }
    }

    /// The rows once the first `count` of them have followed, one after
    /// the other: a follower whose target follows an earlier row takes the
    /// position that its target has taken.
    pub open spec fn followed(rows: Seq<EntityRow>, count: nat) -> Seq<EntityRow>
        decreases count,
    {
        if count == 0 {
            rows
        } else {
            Self::follow_at(Self::followed(rows, (count - 1) as nat), count - 1)
        }
    }

    /// The position of `entity` among the rows.
    pub fn find(rows: &Vec<EntityRow>, entity: Entity) -> (position: Option<PositionComponent>)
        ensures
            position == Self::position_of(rows@, entity),
    {
        let n = rows.len();
        let mut i: usize = 0;
        while i < n
            invariant
                i <= n,
                n == rows@.len(),
                forall|j: int| 0 <= j < i ==> (#[trigger] rows@[j]).entity != entity,
            decreases n - i,
        {
            if rows[i].entity == entity {
                proof {
                    assert(Self::stands_first(rows@, i as int, entity));
                    let k = choose|k: int| Self::stands_first(rows@, k, entity);
                    if k < i {
                        assert(rows@[k].entity != entity);
                    }
                    if i < k {
                        assert(rows@[i as int].entity != entity);
                    }
                }
                return rows[i].position;
            }
            i += 1;
        }
        proof {
            if exists|k: int| Self::stands_first(rows@, k, entity) {
                let k = choose|k: int| Self::stands_first(rows@, k, entity);
                assert(rows@[k].entity != entity);
            }
        }
        None
    }

    /// Lets every follower take the position of its target, row by row.
    pub fn run(&self, rows: &mut Vec<EntityRow>)
        ensures
            final(rows)@ == Self::followed(old(rows)@, old(rows)@.len()),
    {
        let n = rows.len();
        let mut i: usize = 0;
        while i < n
            invariant
                i <= n,
                rows@.len() == n,
                n == old(rows)@.len(),
                rows@ == Self::followed(old(rows)@, i as nat),
            decreases n - i,
        {
            let row = rows[i];
            match (row.follows, row.position) {
                (Some(follows), Some(_)) => {
                    match Self::find(rows, follows.target) {
                        Some(position) => {
                            rows.set(i, EntityRow { position: Some(position), ..row });
                        },
                        None => {},
                    }
                },
                _ => {},
            }
            i += 1;
        }
    }
}

} // verus!
