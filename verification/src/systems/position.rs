//! Copy of the bodies' transforms into the position components.

use vstd::prelude::*;
use std::collections::HashMap;
use crate::components::{BodyHandle, EntityRow, PositionComponent};

verus! {

pub struct PositionSystem;

impl PositionSystem {
    /// The row after the pass: the position of a row with a rigid body is
    /// overwritten with where the physics world has its body and how the
    /// body is turned. A row whose body the world does not hold, or that
    /// has no position or no body, is left alone.
    pub open spec fn step_spec(row: EntityRow, poses: Map<BodyHandle, PositionComponent>) -> EntityRow {
        match (row.rigid_body, row.position) {
            (Some(body), Some(_)) => if poses.contains_key(body.handle) {
                EntityRow { position: Some(poses[body.handle]), ..row }
            } else {
                row
            },
            _ => row,
        }
    }

    pub fn step(row: EntityRow, poses: &HashMap<BodyHandle, PositionComponent>) -> (next: EntityRow)
        ensures
            next == Self::step_spec(row, poses@),
    {
        broadcast use vstd::std_specs::hash::group_hash_axioms;

        match (row.rigid_body, row.position) {
            (Some(body), Some(_)) => {
                match poses.get(&body.handle) {
                    Some(pose) => EntityRow { position: Some(*pose), ..row },
                    None => row,
                }
            },
            _ => row,
        }
    }

    /// Overwrites the position of every row from its body; `poses` holds
    /// the place of each body, in fixed-point pixels, and its rotation, in
    /// thousandths of a radian.
    pub fn run(&self, poses: &HashMap<BodyHandle, PositionComponent>, rows: &mut Vec<EntityRow>)
        ensures
            final(rows)@.len() == old(rows)@.len(),
            forall|i: int|
                0 <= i < old(rows)@.len() ==> #[trigger] final(rows)@[i] == Self::step_spec(
                    old(rows)@[i],
                    poses@,
                ),
    {
        let n = rows.len();
        let mut i: usize = 0;
        while i < n
            invariant
                i <= n,
                rows@.len() == n,
                n == old(rows)@.len(),
                forall|j: int|
                    0 <= j < i ==> #[trigger] rows@[j] == Self::step_spec(old(rows)@[j], poses@),
                forall|j: int| i <= j < n ==> #[trigger] rows@[j] == old(rows)@[j],
            decreases n - i,
        {
            let next = Self::step(rows[i], poses);
            rows.set(i, next);
            i += 1;
        }
    }
}

} // verus!
