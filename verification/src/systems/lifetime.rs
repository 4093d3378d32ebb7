//! Countdown of entity lifetimes.

use vstd::prelude::*;
use crate::components::{EntityRow, GarbageComponent, LifetimeComponent};

verus! {

pub struct LifetimeSystem;

impl LifetimeSystem {
    /// The row after one frame of `dt` nanoseconds: a row with a lifetime
    /// and a garbage flag counts down while the time left covers the frame,
    /// and is marked dead, with its time untouched, once it does not.
    pub open spec fn step_spec(row: EntityRow, dt: u64) -> EntityRow {
        match (row.lifetime, row.garbage) {
            (Some(lifetime), Some(_)) => if lifetime.duration >= dt {
                EntityRow {
                    lifetime: Some(LifetimeComponent { duration: (lifetime.duration - dt) as u64 }),
                    ..row
                }
            } else {
                EntityRow { garbage: Some(GarbageComponent { is_alive: false }), ..row }
            },
            _ => row,
        }
    }

    /// Time left to live of a row, zero where it has no lifetime.
    pub open spec fn remaining(row: EntityRow) -> nat {
        match row.lifetime {
            Some(lifetime) => lifetime.duration as nat,
            None => 0,
        }
    }

    /// The row after a run of frames, one for each of `deltas`.
    pub open spec fn after_frames(row: EntityRow, deltas: Seq<u64>) -> EntityRow
        decreases deltas.len(),
    {
        if deltas.len() == 0 {
            row
        } else {
            Self::step_spec(Self::after_frames(row, deltas.drop_last()), deltas.last())
        }
    }

    pub fn step(row: EntityRow, dt: u64) -> (next: EntityRow)
        ensures
            next == Self::step_spec(row, dt),
            Self::remaining(next) <= Self::remaining(row),
    {
        match (row.lifetime, row.garbage) {
            (Some(lifetime), Some(_)) => {
                match lifetime.duration.checked_sub(dt) {
                    Some(left) => EntityRow {
                        lifetime: Some(LifetimeComponent { duration: left }),
                        ..row
                    },
                    None => EntityRow { garbage: Some(GarbageComponent { is_alive: false }), ..row },
                }
            },
            _ => row,
        }
    }

    /// Advances every row by one frame of `dt` nanoseconds.
    pub fn run(&self, dt: u64, rows: &mut Vec<EntityRow>)
        ensures
            final(rows)@.len() == old(rows)@.len(),
            forall|i: int|
                0 <= i < old(rows)@.len() ==> #[trigger] final(rows)@[i] == Self::step_spec(
                    old(rows)@[i],
                    dt,
                ),
    {
        let n = rows.len();
        let mut i: usize = 0;
        while i < n
            invariant
                i <= n,
                rows@.len() == n,
                n == old(rows)@.len(),
                forall|j: int| 0 <= j < i ==> #[trigger] rows@[j] == Self::step_spec(old(rows)@[j], dt),
                forall|j: int| i <= j < n ==> #[trigger] rows@[j] == old(rows)@[j],
            decreases n - i,
        {
            let next = Self::step(rows[i], dt);
            rows.set(i, next);
            i += 1;
        }
    }

    /// Over any run of frames, however long each is, the time left to live
    /// never grows and never falls below zero; a frame longer than the time
    /// left marks the row dead and takes nothing off; and a row that is
    /// dead stays dead.
    pub proof fn lemma_remaining_never_grows(row: EntityRow, deltas: Seq<u64>)
        ensures
            0 <= Self::remaining(Self::after_frames(row, deltas)) <= Self::remaining(row),
            row.is_dead() ==> Self::after_frames(row, deltas).is_dead(),
            deltas.len() > 0 ==> Self::remaining(Self::after_frames(row, deltas))
                <= Self::remaining(Self::after_frames(row, deltas.drop_last())),
            deltas.len() > 0 && row.lifetime is Some && row.garbage is Some && deltas.last()
                > Self::remaining(Self::after_frames(row, deltas.drop_last()))
                ==> Self::after_frames(row, deltas).is_dead() && Self::remaining(
                Self::after_frames(row, deltas),
            ) == Self::remaining(Self::after_frames(row, deltas.drop_last())),
        decreases deltas.len(),
    {
        if deltas.len() > 0 {
            Self::lemma_remaining_never_grows(row, deltas.drop_last());
            Self::lemma_components_stay(row, deltas.drop_last());
        }
    }

    /// A run of frames gives a row no lifetime or garbage flag that it did
    /// not have, and takes none away.
    pub proof fn lemma_components_stay(row: EntityRow, deltas: Seq<u64>)
        ensures
            Self::after_frames(row, deltas).lifetime is Some <==> row.lifetime is Some,
            Self::after_frames(row, deltas).garbage is Some <==> row.garbage is Some,
        decreases deltas.len(),
    {
        if deltas.len() > 0 {
            Self::lemma_components_stay(row, deltas.drop_last());
        }
    }
}

} // verus!
