//! Removal of dead entities.

use vstd::prelude::*;
use crate::components::{
    distinct_entities, index_in_step, BodyHandle, Entity, EntityRow, RigidBodyComponent,
};
use crate::resources::PhysicsSim;

verus! {

pub struct GarbageSystem;

/// Every row that a filter keeps is a row of the sequence, and rows with
/// distinct entities keep them distinct.
proof fn lemma_filter_keeps_distinct(rows: Seq<EntityRow>, pred: spec_fn(EntityRow) -> bool)
    ensures
        forall|i: int|
            0 <= i < rows.filter(pred).len() ==> rows.contains(#[trigger] rows.filter(pred)[i]),
        distinct_entities(rows) ==> distinct_entities(rows.filter(pred)),
    decreases rows.len(),
{
    reveal(Seq::filter);
    if rows.len() > 0 {
        let front = rows.drop_last();
        let last = rows.last();
        lemma_filter_keeps_distinct(front, pred);
        let kept = rows.filter(pred);
        assert forall|i: int| 0 <= i < kept.len() implies rows.contains(#[trigger] kept[i]) by {
            if i < front.filter(pred).len() {
                assert(kept[i] == front.filter(pred)[i]);
                assert(front.contains(front.filter(pred)[i]));
                let k = choose|k: int| 0 <= k < front.len() && front[k] == front.filter(pred)[i];
                assert(rows[k] == kept[i]);
            } else {
                assert(kept[i] == last);
                assert(rows[rows.len() - 1] == last);
            }
        }
        if distinct_entities(rows) {
            assert(distinct_entities(front)) by {
                assert forall|i: int, j: int|
                    0 <= i < front.len() && 0 <= j < front.len() && i != j implies (
                #[trigger] front[i]).entity != (#[trigger] front[j]).entity by {
                    assert(rows[i] == front[i]);
                    assert(rows[j] == front[j]);
                }
            }
            assert forall|i: int, j: int|
                0 <= i < kept.len() && 0 <= j < kept.len() && i != j implies (
            #[trigger] kept[i]).entity != (#[trigger] kept[j]).entity by {
                let inner = front.filter(pred);
                if i < inner.len() && j < inner.len() {
                    assert(kept[i] == inner[i]);
                    assert(kept[j] == inner[j]);
                } else {
                    let low = if i < j {
                        i
                    } else {
                        j
                    };
                    assert(kept[low] == inner[low]);
                    assert(front.contains(inner[low]));
                    let k = choose|k: int| 0 <= k < front.len() && front[k] == inner[low];
                    assert(rows[k] == front[k]);
                    assert(rows[rows.len() - 1] == last);
                }
            }
        }
    }
}

impl GarbageSystem {
    /// The handles of the rigid bodies that dead rows hold.
    pub open spec fn dead_handles(rows: Seq<EntityRow>) -> Set<BodyHandle> {
        Set::new(
            |h: BodyHandle|
                exists|i: int|
                    0 <= i < rows.len() && (#[trigger] rows[i]).is_dead() && rows[i].rigid_body
                        == Some(RigidBodyComponent { handle: h }),
        )
    }

    /// Removes every row that is marked dead, and the handle of its rigid
    /// body from the index. The rows that stay keep their order. Returns the
    /// removed rows, in their order, for the caller to delete their
    /// entities and their bodies.
    pub fn run(&self, rows: &mut Vec<EntityRow>, physics: &mut PhysicsSim) -> (reaped: Vec<
        EntityRow,
    >)
        ensures
            final(rows)@ == old(rows)@.filter(|row: EntityRow| !row.is_dead()),
            reaped@ == old(rows)@.filter(|row: EntityRow| row.is_dead()),
            final(physics).bodies@ == old(physics).bodies@.remove_keys(
                Self::dead_handles(old(rows)@),
            ),
            distinct_entities(old(rows)@) ==> distinct_entities(final(rows)@),
            distinct_entities(old(rows)@) && index_in_step(old(rows)@, old(physics).bodies@)
                ==> index_in_step(final(rows)@, final(physics).bodies@) && Self::none_dangling(
                reaped@,
                final(physics).bodies@,
            ),
    {
        let ghost alive = |row: EntityRow| !row.is_dead();
        let ghost dead = |row: EntityRow| row.is_dead();
        let ghost before = rows@;
        let ghost index = physics.bodies@;
        let n = rows.len();
        let mut kept: Vec<EntityRow> = Vec::new();
        let mut reaped: Vec<EntityRow> = Vec::new();
        let mut i: usize = 0;
        proof {
            reveal(Seq::filter);
            assert(before.subrange(0, 0) =~= Seq::<EntityRow>::empty());
            assert(index.remove_keys(Self::dead_handles(before.subrange(0, 0))) =~= index);
        }
        while i < n
            invariant
                i <= n,
                n == before.len(),
                rows@ == before,
                forall|row: EntityRow| #[trigger] alive(row) == !row.is_dead(),
                forall|row: EntityRow| #[trigger] dead(row) == row.is_dead(),
                kept@ == before.subrange(0, i as int).filter(alive),
                reaped@ == before.subrange(0, i as int).filter(dead),
                physics.bodies@ == index.remove_keys(
                    Self::dead_handles(before.subrange(0, i as int)),
                ),
            decreases n - i,
        {
            let row = rows[i];
            let ghost prefix = before.subrange(0, i as int);
            let ghost next = before.subrange(0, i as int + 1);
            let ghost bodies = physics.bodies@;
            proof {
                reveal(Seq::filter);
                assert(next.drop_last() =~= prefix);
                assert(next.last() == row);
                assert(next.filter(alive) == if alive(row) {
                    prefix.filter(alive).push(row)
                } else {
                    prefix.filter(alive)
                });
                assert(next.filter(dead) == if dead(row) {
                    prefix.filter(dead).push(row)
                } else {
                    prefix.filter(dead)
                });
            }
            let is_dead = match row.garbage {
                Some(garbage) => !garbage.is_alive,
                None => false,
            };
            if is_dead {
                reaped.push(row);
                match row.rigid_body {
                    Some(body) => {
                        physics.release(body.handle);
                    },
                    None => {},
                }
            } else {
                kept.push(row);
            }
            proof {
                assert forall|h: BodyHandle|
                    Self::dead_handles(next).contains(h) <==> (Self::dead_handles(prefix).contains(
                        h,
                    ) || (row.is_dead() && row.rigid_body == Some(
                        RigidBodyComponent { handle: h },
                    ))) by {
                    if Self::dead_handles(next).contains(h) {
                        let k = choose|k: int|
                            0 <= k < next.len() && (#[trigger] next[k]).is_dead()
                                && next[k].rigid_body == Some(RigidBodyComponent { handle: h });
                        if k < i {
                            assert(prefix[k] == next[k]);
                        }
                    }
                    if Self::dead_handles(prefix).contains(h) {
                        let k = choose|k: int|
                            0 <= k < prefix.len() && (#[trigger] prefix[k]).is_dead()
                                && prefix[k].rigid_body == Some(RigidBodyComponent { handle: h });
                        assert(next[k] == prefix[k]);
                    }
                    if row.is_dead() && row.rigid_body == Some(RigidBodyComponent { handle: h }) {
                        assert(next[i as int] == row);
                    }
                }
                assert(physics.bodies@ =~= index.remove_keys(Self::dead_handles(next)));
            }
            i += 1;
        }
        proof {
            assert(before.subrange(0, n as int) =~= before);
            lemma_filter_keeps_distinct(before, alive);
            if distinct_entities(before) && index_in_step(before, index) {
                Self::lemma_no_dangling_handle(before, index);
            }
        }
        *rows = kept;
        reaped
    }

    /// No handle in the index names the entity of one of the removed rows.
    pub open spec fn none_dangling(reaped: Seq<EntityRow>, index: Map<BodyHandle, Entity>) -> bool {
        forall|h: BodyHandle, i: int|
            #![trigger index.contains_key(h), reaped[i]]
            index.contains_key(h) && 0 <= i < reaped.len() ==> index[h] != reaped[i].entity
    }

    /// After a garbage pass over rows with distinct entities and an index
    /// in step with them, no handle left in the index names a removed
    /// entity, and the index is in step with the rows that stayed.
    pub proof fn lemma_no_dangling_handle(rows: Seq<EntityRow>, index: Map<BodyHandle, Entity>)
        requires
            distinct_entities(rows),
            index_in_step(rows, index),
        ensures
            forall|h: BodyHandle, i: int|
                #![trigger index.remove_keys(Self::dead_handles(rows)).contains_key(h), rows[i]]
                index.remove_keys(Self::dead_handles(rows)).contains_key(h) && 0 <= i < rows.len()
                    && rows[i].is_dead() ==> index[h] != rows[i].entity,
            Self::none_dangling(
                rows.filter(|row: EntityRow| row.is_dead()),
                index.remove_keys(Self::dead_handles(rows)),
            ),
            index_in_step(
                rows.filter(|row: EntityRow| !row.is_dead()),
                index.remove_keys(Self::dead_handles(rows)),
            ),
    {
        let after = index.remove_keys(Self::dead_handles(rows));
        let alive = |row: EntityRow| !row.is_dead();
        let dead = |row: EntityRow| row.is_dead();
        assert forall|h: BodyHandle, i: int|
            after.contains_key(h) && 0 <= i < rows.len() && rows[i].is_dead() implies index[h]
            != rows[i].entity by {
            assert(index.contains_key(h));
            let k = choose|k: int|
                0 <= k < rows.len() && (#[trigger] rows[k]).entity == index[h]
                    && rows[k].rigid_body == Some(RigidBodyComponent { handle: h });
            if index[h] == rows[i].entity {
                assert(k == i);
                assert(Self::dead_handles(rows).contains(h));
            }
        }
        assert forall|h: BodyHandle, i: int|
            after.contains_key(h) && 0 <= i < rows.filter(dead).len() implies after[h]
            != rows.filter(dead)[i].entity by {
            lemma_filter_keeps_distinct(rows, dead);
            rows.lemma_filter_pred(dead, i);
            let gone = rows.filter(dead)[i];
            assert(rows.contains(gone));
            let k = choose|k: int| 0 <= k < rows.len() && rows[k] == gone;
            assert(rows[k].is_dead());
        }
        assert forall|h: BodyHandle| #[trigger] after.contains_key(h) implies exists|i: int|
            0 <= i < rows.filter(alive).len() && (#[trigger] rows.filter(alive)[i]).entity
                == after[h] && rows.filter(alive)[i].rigid_body == Some(
                RigidBodyComponent { handle: h },
            ) by {
            assert(index.contains_key(h));
            let k = choose|k: int|
                0 <= k < rows.len() && (#[trigger] rows[k]).entity == index[h]
                    && rows[k].rigid_body == Some(RigidBodyComponent { handle: h });
            if rows[k].is_dead() {
                assert(Self::dead_handles(rows).contains(h));
            }
            assert(alive(rows[k]));
            rows.lemma_filter_contains(alive, k);
            let kept = rows.filter(alive);
            let m = choose|m: int| 0 <= m < kept.len() && kept[m] == rows[k];
            assert(kept[m].entity == after[h]);
        }
    }
}

} // verus!
