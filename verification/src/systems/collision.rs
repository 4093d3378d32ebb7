//! Reaction of gameplay to the collision events.

use vstd::prelude::*;
use crate::components::{Entity, EntityRow, GarbageComponent};
use crate::entities::{create_death_explosion, is_fragment, Blueprint};
use crate::events::{
    channel_key, channel_log, channel_read, channel_register_reader, reader_cursor, reader_follows,
    reader_key, CollisionEvents, CollisionReader,
};
use crate::resources::{CollisionEvent, CollisionType};

verus! {

/// Reads the collision events with a cursor of its own.
pub struct CollisionSystem {
    pub reader: Option<CollisionReader>,
}

impl Default for CollisionSystem {
    fn default() -> (system: CollisionSystem)
        ensures
            system.reader is None,
    {
        CollisionSystem { reader: None }
    }
}

impl CollisionSystem {
    /// The pickup of a collision.
    pub open spec fn pickup_of(event: CollisionEvent) -> Entity {
        match event.collision_type {
            CollisionType::PlayerAmmo { player, ammo } => ammo,
        }
    }

    /// Whether one of the events consumes the row: the row can be marked
    /// and is the pickup of an event.
    pub open spec fn consumed(row: EntityRow, events: Seq<CollisionEvent>) -> bool {
        row.garbage is Some && exists|k: int|
            0 <= k < events.len() && Self::pickup_of(#[trigger] events[k]) == row.entity
    }

    /// The row after the events: dead where one of them consumes it, as it
    /// was otherwise.
    pub open spec fn react_spec(row: EntityRow, events: Seq<CollisionEvent>) -> EntityRow {
        if Self::consumed(row, events) {
            EntityRow { garbage: Some(GarbageComponent { is_alive: false }), ..row }
        } else {
            row
        }
    }

    /// Whether `fragment` is a fragment of a death explosion at the place
    /// of one of the events.
    pub open spec fn scattered_by(fragment: Blueprint, events: Seq<CollisionEvent>) -> bool {
        exists|k: int|
            0 <= k < events.len() && is_fragment(fragment, (#[trigger] events[k]).x, events[k].y)
    }

    /// The events that the reader has yet to see.
    pub open spec fn pending(reader: CollisionReader, channel: CollisionEvents) -> Seq<
        CollisionEvent,
    > {
        channel_log(channel).subrange(
            reader_cursor(reader) as int,
            channel_log(channel).len() as int,
        )
    }

    /// Registers this system's reader with the channel. It will see what
    /// is written from now on.
    pub fn setup(&mut self, collision_events: &mut CollisionEvents)
        ensures
            final(self).reader is Some,
            reader_follows(final(self).reader.unwrap(), *final(collision_events)),
            Self::pending(final(self).reader.unwrap(), *final(collision_events)).len() == 0,
            channel_log(*final(collision_events)) == channel_log(*old(collision_events)),
            channel_key(*final(collision_events)) == channel_key(*old(collision_events)),
    {
        let reader = channel_register_reader(collision_events);
        self.reader = Some(reader);
    }

    /// Marks every row dead that stands for `entity` and has a garbage
    /// flag.
    fn mark_dead(rows: &mut Vec<EntityRow>, entity: Entity)
        ensures
            final(rows)@.len() == old(rows)@.len(),
            forall|i: int|
                0 <= i < old(rows)@.len() ==> #[trigger] final(rows)@[i] == (if old(
                    rows,
                )@[i].entity == entity && old(rows)@[i].garbage is Some {
                    EntityRow {
                        garbage: Some(GarbageComponent { is_alive: false }),
                        ..old(rows)@[i]
                    }
                } else {
                    old(rows)@[i]
                }),
    {
        let n = rows.len();
        let mut i: usize = 0;
        while i < n
            invariant
                i <= n,
                rows@.len() == n,
                n == old(rows)@.len(),
                forall|j: int|
                    0 <= j < i ==> #[trigger] rows@[j] == (if old(rows)@[j].entity == entity && old(
                        rows,
                    )@[j].garbage is Some {
                        EntityRow {
                            garbage: Some(GarbageComponent { is_alive: false }),
                            ..old(rows)@[j]
                        }
                    } else {
                        old(rows)@[j]
                    }),
                forall|j: int| i <= j < n ==> #[trigger] rows@[j] == old(rows)@[j],
            decreases n - i,
        {
            let row = rows[i];
            if row.entity == entity && row.garbage.is_some() {
                rows.set(i, EntityRow { garbage: Some(GarbageComponent { is_alive: false }), ..row });
            }
            i += 1;
        }
    }

    /// Reacts to `events`, in their order: the pickup of each is marked
    /// dead, and each leaves the fragments of one death explosion where it
    /// happened.
    pub fn react(events: &Vec<CollisionEvent>, rows: &mut Vec<EntityRow>) -> (fragments: Vec<
        Blueprint,
    >)
        ensures
            final(rows)@.len() == old(rows)@.len(),
            forall|i: int|
                0 <= i < old(rows)@.len() ==> #[trigger] final(rows)@[i] == Self::react_spec(
                    old(rows)@[i],
                    events@,
                ),
            4 * events@.len() <= fragments@.len() <= 29 * events@.len(),
            forall|i: int|
                0 <= i < fragments@.len() ==> Self::scattered_by(#[trigger] fragments@[i], events@),
    {
        let m = events.len();
        let mut fragments: Vec<Blueprint> = Vec::new();
        let mut k: usize = 0;
        while k < m
            invariant
                k <= m,
                m == events@.len(),
                rows@.len() == old(rows)@.len(),
                forall|i: int|
                    0 <= i < old(rows)@.len() ==> #[trigger] rows@[i] == Self::react_spec(
                        old(rows)@[i],
                        events@.subrange(0, k as int),
                    ),
                4 * k <= fragments@.len() <= 29 * k,
                forall|i: int|
                    0 <= i < fragments@.len() ==> Self::scattered_by(
                        #[trigger] fragments@[i],
                        events@,
                    ),
            decreases m - k,
        {
            let event = events[k];
            let ghost seen = events@.subrange(0, k as int);
            let ghost next = events@.subrange(0, k as int + 1);
            let ghost before = rows@;
            let ghost earlier = fragments@;
            match event.collision_type {
                CollisionType::PlayerAmmo { player: _, ammo } => {
                    Self::mark_dead(rows, ammo);
                    let mut scattered = create_death_explosion(event.x, event.y);
                    proof {
                        assert forall|i: int| 0 <= i < scattered@.len() implies Self::scattered_by(
                            #[trigger] scattered@[i],
                            events@,
                        ) by {
                            assert(is_fragment(
                                scattered@[i],
                                events@[k as int].x,
                                events@[k as int].y,
                            ));
                        }
                    }
                    fragments.append(&mut scattered);
                },
            }
            proof {
                assert forall|i: int| 0 <= i < old(rows)@.len() implies #[trigger] rows@[i]
                    == Self::react_spec(old(rows)@[i], next) by {
                    let row = old(rows)@[i];
                    assert(before[i] == Self::react_spec(row, seen));
                    assert(next[k as int] == event);
                    if Self::consumed(row, seen) {
                        let j = choose|j: int|
                            0 <= j < seen.len() && Self::pickup_of(#[trigger] seen[j])
                                == row.entity;
                        assert(next[j] == seen[j]);
                    }
                    if Self::consumed(row, next) && !Self::consumed(row, seen) {
                        let j = choose|j: int|
                            0 <= j < next.len() && Self::pickup_of(#[trigger] next[j])
                                == row.entity;
                        if j < k {
                            assert(seen[j] == next[j]);
                        }
                    }
                }
            }
            k += 1;
        }
        proof {
            assert(events@.subrange(0, m as int) =~= events@);
        }
        fragments
    }

    /// Reads the events that this system has yet to see and reacts to
    /// them. Afterwards the reader stands at the end of the log.
    pub fn run(&mut self, collision_events: &CollisionEvents, rows: &mut Vec<EntityRow>) -> (fragments:
        Vec<Blueprint>)
        requires
            old(self).reader is Some,
            reader_follows(old(self).reader.unwrap(), *collision_events),
        ensures
            final(self).reader is Some,
            reader_key(final(self).reader.unwrap()) == reader_key(old(self).reader.unwrap()),
            reader_cursor(final(self).reader.unwrap()) == channel_log(*collision_events).len(),
            Self::pending(final(self).reader.unwrap(), *collision_events).len() == 0,
            final(rows)@.len() == old(rows)@.len(),
            forall|i: int|
                0 <= i < old(rows)@.len() ==> #[trigger] final(rows)@[i] == Self::react_spec(
                    old(rows)@[i],
                    Self::pending(old(self).reader.unwrap(), *collision_events),
                ),
            4 * Self::pending(old(self).reader.unwrap(), *collision_events).len()
                <= fragments@.len() <= 29 * Self::pending(
                old(self).reader.unwrap(),
                *collision_events,
            ).len(),
            forall|i: int|
                0 <= i < fragments@.len() ==> Self::scattered_by(
                    #[trigger] fragments@[i],
                    Self::pending(old(self).reader.unwrap(), *collision_events),
                ),
    {
        let mut reader = self.reader.take().unwrap();
        let events = channel_read(collision_events, &mut reader);
        self.reader = Some(reader);
        Self::react(&events, rows)
    }
}

} // verus!
