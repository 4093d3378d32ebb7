//! From the contacts of one physics step to collision events.

use vstd::prelude::*;
use crate::components::{BodyHandle, Entity};
use crate::events::{channel_key, channel_log, channel_single_write, CollisionEvents};
use crate::resources::{ColliderType, CollisionEvent, CollisionType, PhysicsSim};

verus! {

/// Two colliders in contact, as the physics engine reports them: the body
/// and the label of each, and where the second body is, in fixed-point
/// pixels, if the physics world still holds it.
pub struct ContactPair {
    pub body1: BodyHandle,
    pub body2: BodyHandle,
    pub name1: String,
    pub name2: String,
    pub position2: Option<(i64, i64)>,
}

/// A contact event of one physics step.
pub enum ContactEvent {
    /// Two colliders began to touch. The pair is absent where the engine no
    /// longer knows it.
    Started(Option<ContactPair>),
    /// Two colliders ceased to touch.
    Stopped,
}

pub struct PhysicsSystem;

impl PhysicsSystem {
    /// The collision that two collider types in contact make, by which of
    /// the two is the player: `Some(true)` for the first, `Some(false)` for
    /// the second, `None` where the pair makes no collision.
    pub open spec fn player_first(
        first: Option<ColliderType>,
        second: Option<ColliderType>,
    ) -> Option<bool> {
        match (first, second) {
            (Some(ColliderType::Player), Some(ColliderType::Ammo)) => Some(true),
            (Some(ColliderType::Ammo), Some(ColliderType::Player)) => Some(false),
            _ => None,
        }
    }

    /// The collision event of a pair: one for a player and an ammo pickup
    /// in either order, whose bodies both are indexed and whose second body
    /// has a position; none for anything else.
    pub open spec fn classify_spec(
        pair: ContactPair,
        index: Map<BodyHandle, Entity>,
    ) -> Option<CollisionEvent> {
        if index.contains_key(pair.body1) && index.contains_key(pair.body2) {
            match (
                pair.position2,
                Self::player_first(
                    ColliderType::of_label(pair.name1@),
                    ColliderType::of_label(pair.name2@),
                ),
            ) {
                (Some(at), Some(first)) => Some(
                    CollisionEvent {
                        collision_type: CollisionType::PlayerAmmo {
                            player: if first {
                                index[pair.body1]
                            } else {
                                index[pair.body2]
                            },
                            ammo: if first {
                                index[pair.body2]
                            } else {
                                index[pair.body1]
                            },
                        },
                        x: at.0,
                        y: at.1,
                    },
                ),
                _ => None,
            }
        } else {
            None
        }
    }

    /// The collision event of a contact event: that of its pair where
    /// contact started, none where it stopped.
    pub open spec fn event_of(
        contact: ContactEvent,
        index: Map<BodyHandle, Entity>,
    ) -> Option<CollisionEvent> {
        match contact {
            ContactEvent::Started(Some(pair)) => Self::classify_spec(pair, index),
            _ => None,
        }
    }

    /// The collision events of a step's contact events, in their order.
    pub open spec fn events_of(
        contacts: Seq<ContactEvent>,
        index: Map<BodyHandle, Entity>,
    ) -> Seq<CollisionEvent>
        decreases contacts.len(),
    {
        if contacts.len() == 0 {
            Seq::empty()
        } else {
            let earlier = Self::events_of(contacts.drop_last(), index);
            match Self::event_of(contacts.last(), index) {
                Some(event) => earlier.push(event),
                None => earlier,
            }
        }
    }

    /// Classifies one pair of colliders in contact. A label that names no
    /// collider type makes no event.
    pub fn classify(pair: &ContactPair, physics: &PhysicsSim) -> (event: Option<CollisionEvent>)
        ensures
            event == Self::classify_spec(*pair, physics.bodies@),
    {
        let entity1 = physics.entity_of(pair.body1);
        let entity2 = physics.entity_of(pair.body2);
        match (entity1, entity2, pair.position2) {
            (Some(e1), Some(e2), Some(at)) => {
                let collider_type_1 = ColliderType::parse(pair.name1.as_str());
                let collider_type_2 = ColliderType::parse(pair.name2.as_str());
                match (collider_type_1, collider_type_2) {
                    (Ok(ColliderType::Player), Ok(ColliderType::Ammo)) => Some(
                        CollisionEvent {
                            collision_type: CollisionType::PlayerAmmo { player: e1, ammo: e2 },
                            x: at.0,
                            y: at.1,
                        },
                    ),
                    (Ok(ColliderType::Ammo), Ok(ColliderType::Player)) => Some(
                        CollisionEvent {
                            collision_type: CollisionType::PlayerAmmo { player: e2, ammo: e1 },
                            x: at.0,
                            y: at.1,
                        },
                    ),
                    _ => None,
                }
            },
            _ => None,
        }
    }

    /// The collision events of one step, in the order of its contacts.
    pub fn collisions(contacts: &Vec<ContactEvent>, physics: &PhysicsSim) -> (events: Vec<
        CollisionEvent,
    >)
        ensures
            events@ == Self::events_of(contacts@, physics.bodies@),
    {
        let mut events: Vec<CollisionEvent> = Vec::new();
        let n = contacts.len();
        let mut i: usize = 0;
        while i < n
            invariant
                i <= n,
                n == contacts@.len(),
                events@ == Self::events_of(contacts@.subrange(0, i as int), physics.bodies@),
            decreases n - i,
        {
            proof {
                assert(contacts@.subrange(0, i as int + 1).drop_last() =~= contacts@.subrange(
                    0,
                    i as int,
                ));
            }
            match &contacts[i] {
                ContactEvent::Started(Some(pair)) => {
                    match Self::classify(pair, physics) {
                        Some(event) => {
                            events.push(event);
                        },
                        None => {},
                    }
                },
                _ => {},
            }
            i += 1;
        }
        proof {
            assert(contacts@.subrange(0, n as int) =~= contacts@);
        }
        events
    }

    /// Appends the collision events of one step to the channel, in the
    /// order of its contacts.
    pub fn run(
        &self,
        contacts: &Vec<ContactEvent>,
        physics: &PhysicsSim,
        collision_events: &mut CollisionEvents,
    )
        ensures
            channel_log(*final(collision_events)) == channel_log(*old(collision_events))
                + Self::events_of(contacts@, physics.bodies@),
            channel_key(*final(collision_events)) == channel_key(*old(collision_events)),
    {
        let events = Self::collisions(contacts, physics);
        let n = events.len();
        let mut i: usize = 0;
        proof {
            assert(events@.subrange(0, 0) =~= Seq::<CollisionEvent>::empty());
            assert(channel_log(*collision_events) + Seq::<CollisionEvent>::empty() =~= channel_log(
                *collision_events,
            ));
        }
        while i < n
            invariant
                i <= n,
                n == events@.len(),
                channel_log(*collision_events) == channel_log(*old(collision_events))
                    + events@.subrange(0, i as int),
                channel_key(*collision_events) == channel_key(*old(collision_events)),
            decreases n - i,
        {
            channel_single_write(collision_events, events[i]);
            proof {
                assert(events@.subrange(0, i as int + 1) =~= events@.subrange(0, i as int).push(
                    events@[i as int],
                ));
                assert((channel_log(*old(collision_events)) + events@.subrange(0, i as int)).push(
                    events@[i as int],
                ) =~= channel_log(*old(collision_events)) + events@.subrange(0, i as int + 1));
            }
            i += 1;
        }
        proof {
            assert(events@.subrange(0, n as int) =~= events@);
        }
    }

    /// A player and an ammo pickup that start to touch, in either order,
    /// make exactly one collision event, and its pickup is the entity on
    /// the ammo side.
    pub proof fn lemma_player_meets_ammo(pair: ContactPair, index: Map<BodyHandle, Entity>)
        requires
            index.contains_key(pair.body1),
            index.contains_key(pair.body2),
            pair.position2 is Some,
            (pair.name1@ == "Player"@ && pair.name2@ == "Ammo"@) || (pair.name1@ == "Ammo"@
                && pair.name2@ == "Player"@),
        ensures
            Self::events_of(seq![ContactEvent::Started(Some(pair))], index).len() == 1,
            Self::events_of(seq![ContactEvent::Started(Some(pair))], index)[0].collision_type
                == (CollisionType::PlayerAmmo {
                player: if pair.name1@ == "Player"@ {
                    index[pair.body1]
                } else {
                    index[pair.body2]
                },
                ammo: if pair.name1@ == "Ammo"@ {
                    index[pair.body1]
                } else {
                    index[pair.body2]
                },
            }),
    {
        ColliderType::lemma_label_round_trip(ColliderType::Player);
        ColliderType::lemma_label_round_trip(ColliderType::Ammo);
        let contacts = seq![ContactEvent::Started(Some(pair))];
        assert(contacts.drop_last() =~= Seq::<ContactEvent>::empty());
        assert(contacts.last() == ContactEvent::Started(Some(pair)));
        reveal_with_fuel(PhysicsSystem::events_of, 2);
    }
}

} // verus!
