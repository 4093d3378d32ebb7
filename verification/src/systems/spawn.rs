//! Cadence and cap of the ammo pickups.

use vstd::prelude::*;
use crate::components::{
    BodyHandle, Entity, EntityRow, GarbageComponent, PowerUp, PowerUpComponent,
};
use crate::entities::{create_ammo, is_ammo, Blueprint};
use crate::resources::{GameSettings, SpawnInfo};

verus! {

/// What can happen to the spawn counters: a frame at some time on the
/// simulation clock, or the end of one pickup.
pub enum SpawnStep {
    Frame { now: u64 },
    Release,
}

/// What can happen to the rows and the spawn counters together.
pub enum WorldStep {
    /// A frame of the spawn system at `now`; a pickup that it creates
    /// becomes the entity `entity` with the body under `handle`.
    Spawn { now: u64, pickup: Blueprint, entity: Entity, handle: Option<BodyHandle> },
    /// Some system marks the row at `row` dead.
    Kill { row: usize },
    /// A garbage pass, followed by the release of what it removed.
    Reap,
}

pub struct SpawnSystem;

/// How many of the rows are ammo pickups.
pub open spec fn ammo_among(rows: Seq<EntityRow>) -> nat {
    rows.filter(|row: EntityRow| row.is_ammo_pickup()).len()
}

/// Every ammo pickup among the rows is counted, and the count is within
/// the cap: no more pickups are alive than the cap allows.
pub open spec fn ammo_counted(rows: Seq<EntityRow>, info: SpawnInfo) -> bool {
    ammo_among(rows) <= info.ammo_count <= info.ammo_max
}

/// The pickups of a sequence are those of its front and those of its last
/// row.
proof fn lemma_ammo_among_push(rows: Seq<EntityRow>, row: EntityRow)
    ensures
        ammo_among(rows.push(row)) == ammo_among(rows) + (if row.is_ammo_pickup() {
            1nat
        } else {
            0nat
        }),
{
    reveal(Seq::filter);
    assert(rows.push(row).drop_last() =~= rows);
}

/// Splitting rows into the dead and the others splits the pickups.
proof fn lemma_ammo_among_split(rows: Seq<EntityRow>)
    ensures
        ammo_among(rows) == ammo_among(rows.filter(|row: EntityRow| !row.is_dead())) + ammo_among(
            rows.filter(|row: EntityRow| row.is_dead()),
        ),
    decreases rows.len(),
{
    let alive = |row: EntityRow| !row.is_dead();
    let dead = |row: EntityRow| row.is_dead();
    if rows.len() == 0 {
        reveal(Seq::filter);
        assert(rows.filter(alive) =~= Seq::<EntityRow>::empty());
        assert(rows.filter(dead) =~= Seq::<EntityRow>::empty());
    } else {
        let front = rows.drop_last();
        let last = rows.last();
        lemma_ammo_among_split(front);
        assert(front.push(last) =~= rows);
        lemma_ammo_among_push(front, last);
        assert(rows.filter(alive) == if alive(last) {
            front.filter(alive).push(last)
        } else {
            front.filter(alive)
        }) by {
            reveal(Seq::filter);
        }
        assert(rows.filter(dead) == if dead(last) {
            front.filter(dead).push(last)
        } else {
            front.filter(dead)
        }) by {
            reveal(Seq::filter);
        }
        if last.is_dead() {
            lemma_ammo_among_push(front.filter(dead), last);
        } else {
            lemma_ammo_among_push(front.filter(alive), last);
        }
    }
}

impl SpawnSystem {
    /// Whether an arena of these settings has room for a pickup to enter
    /// between the offsets from its top and its bottom.
    pub open spec fn has_room(settings: GameSettings) -> bool {
        settings.height > 96
    }

    /// Whether a pickup is due at `now`: more than the interval has passed
    /// since the last one, fewer are alive than the cap allows, and the
    /// arena has room for one.
    pub open spec fn due(info: SpawnInfo, now: u64, settings: GameSettings) -> bool {
        (if now >= info.ammo_last {
            now - info.ammo_last
        } else {
            0
        }) > info.ammo_every && info.ammo_count < info.ammo_max && Self::has_room(settings)
    }

    /// The counters after a frame at `now`.
    pub open spec fn frame_spec(info: SpawnInfo, now: u64, settings: GameSettings) -> SpawnInfo {
        if Self::due(info, now, settings) {
            SpawnInfo { ammo_last: now, ammo_count: (info.ammo_count + 1) as u32, ..info }
        } else {
            info
        }
    }

    /// The counters after the end of one pickup.
    pub open spec fn release_spec(info: SpawnInfo) -> SpawnInfo {
        SpawnInfo {
            ammo_count: if info.ammo_count > 0 {
                (info.ammo_count - 1) as u32
            } else {
                0
            },
            ..info
        }
    }

    /// The counters after the end of `ended` pickups.
    pub open spec fn released(info: SpawnInfo, ended: nat) -> SpawnInfo {
        SpawnInfo {
            ammo_count: if info.ammo_count > ended {
                (info.ammo_count - ended) as u32
            } else {
                0
            },
            ..info
        }
    }

    /// The counters after a run of steps.
    pub open spec fn after(info: SpawnInfo, steps: Seq<SpawnStep>, settings: GameSettings) -> SpawnInfo
        decreases steps.len(),
    {
        if steps.len() == 0 {
            info
        } else {
            let before = Self::after(info, steps.drop_last(), settings);
            match steps.last() {
                SpawnStep::Frame { now } => Self::frame_spec(before, now, settings),
                SpawnStep::Release => Self::release_spec(before),
            }
        }
    }

    /// The rows and the counters after one step.
    pub open spec fn world_step(
        rows: Seq<EntityRow>,
        info: SpawnInfo,
        step: WorldStep,
        settings: GameSettings,
    ) -> (Seq<EntityRow>, SpawnInfo) {
        match step {
            WorldStep::Spawn { now, pickup, entity, handle } => if Self::due(info, now, settings) {
                (rows.push(pickup.row_spec(entity, handle)), Self::frame_spec(info, now, settings))
            } else {
                (rows, info)
            },
            WorldStep::Kill { row } => if row < rows.len() {
                (
                    rows.update(
                        row as int,
                        EntityRow {
                            garbage: Some(GarbageComponent { is_alive: false }),
                            ..rows[row as int]
                        },
                    ),
                    info,
                )
            } else {
                (rows, info)
            },
            WorldStep::Reap => (
                rows.filter(|row: EntityRow| !row.is_dead()),
                Self::released(info, ammo_among(rows.filter(|row: EntityRow| row.is_dead()))),
            ),
        }
    }

    /// The rows and the counters after a run of steps.
    pub open spec fn world_after(
        rows: Seq<EntityRow>,
        info: SpawnInfo,
        steps: Seq<WorldStep>,
        settings: GameSettings,
    ) -> (Seq<EntityRow>, SpawnInfo)
        decreases steps.len(),
    {
        if steps.len() == 0 {
            (rows, info)
        } else {
            let before = Self::world_after(rows, info, steps.drop_last(), settings);
            Self::world_step(before.0, before.1, steps.last(), settings)
        }
    }

    /// Every pickup that a step of the run creates is an ammo pickup.
    pub open spec fn spawns_ammo(steps: Seq<WorldStep>, settings: GameSettings) -> bool {
        forall|i: int|
            0 <= i < steps.len() ==> (#[trigger] steps[i] matches WorldStep::Spawn {
                pickup,
                ..
            } ==> is_ammo(pickup, settings))
    }

    /// One frame at `now`: where a pickup is due, counts it, notes the
    /// time and returns the pickup to create; otherwise leaves the counters
    /// alone and returns nothing. A cap that is reached is no error, nor is
    /// an arena without room for a pickup: nothing is created then.
    pub fn run(&self, now: u64, settings: &GameSettings, spawn_info: &mut SpawnInfo) -> (pickup:
        Option<Blueprint>)
        ensures
            *final(spawn_info) == Self::frame_spec(*old(spawn_info), now, *settings),
            pickup is Some <==> Self::due(*old(spawn_info), now, *settings),
            pickup is Some ==> is_ammo(pickup.unwrap(), *settings),
            old(spawn_info).within_cap() ==> final(spawn_info).within_cap(),
            old(spawn_info).ammo_count <= final(spawn_info).ammo_count <= old(spawn_info).ammo_count
                + 1,
            final(spawn_info).ammo_max == old(spawn_info).ammo_max,
    {
        if now.saturating_sub(spawn_info.ammo_last) > spawn_info.ammo_every && spawn_info.ammo_count
            < spawn_info.ammo_max && settings.height > 96 {
            let pickup = create_ammo(settings);
            spawn_info.ammo_last = now;
            spawn_info.ammo_count = spawn_info.ammo_count + 1;
            Some(pickup)
        } else {
            None
        }
    }

    /// Counts one pickup less alive: to call when a pickup is consumed or
    /// removed. The count stops at zero.
    pub fn release(spawn_info: &mut SpawnInfo)
        ensures
            *final(spawn_info) == Self::release_spec(*old(spawn_info)),
            old(spawn_info).within_cap() ==> final(spawn_info).within_cap(),
    {
        spawn_info.ammo_count = spawn_info.ammo_count.saturating_sub(1);
    }

    /// Counts the ammo pickups among the rows that a garbage pass removed
    /// as no longer alive.
    pub fn release_reaped(spawn_info: &mut SpawnInfo, reaped: &Vec<EntityRow>)
        ensures
            *final(spawn_info) == Self::released(*old(spawn_info), ammo_among(reaped@)),
            old(spawn_info).within_cap() ==> final(spawn_info).within_cap(),
    {
        let n = reaped.len();
        let mut i: usize = 0;
        proof {
            reveal(Seq::filter);
            assert(reaped@.subrange(0, 0) =~= Seq::<EntityRow>::empty());
        }
        while i < n
            invariant
                i <= n,
                n == reaped@.len(),
                *spawn_info == Self::released(
                    *old(spawn_info),
                    ammo_among(reaped@.subrange(0, i as int)),
                ),
            decreases n - i,
        {
            proof {
                assert(reaped@.subrange(0, i as int + 1) =~= reaped@.subrange(0, i as int).push(
                    reaped@[i as int],
                ));
                lemma_ammo_among_push(reaped@.subrange(0, i as int), reaped@[i as int]);
            }
            let is_ammo = match reaped[i].power_up {
                Some(PowerUpComponent { variant: PowerUp::Ammo }) => true,
                _ => false,
            };
            if is_ammo {
                Self::release(spawn_info);
            }
            i += 1;
        }
        proof {
            assert(reaped@.subrange(0, n as int) =~= reaped@);
        }
    }

    /// A pickup that the spawn system creates is counted: where every ammo
    /// pickup among the rows is counted and one more is due, the rows with
    /// the new pickup are counted by the counters after the frame.
    pub proof fn lemma_spawn_keeps_ammo_counted(
        rows: Seq<EntityRow>,
        info: SpawnInfo,
        now: u64,
        settings: GameSettings,
        pickup: Blueprint,
        entity: Entity,
        handle: Option<BodyHandle>,
    )
        requires
            ammo_counted(rows, info),
            Self::due(info, now, settings),
            is_ammo(pickup, settings),
        ensures
            ammo_counted(
                rows.push(pickup.row_spec(entity, handle)),
                Self::frame_spec(info, now, settings),
            ),
    {
        lemma_ammo_among_push(rows, pickup.row_spec(entity, handle));
    }

    /// A garbage pass followed by the release of what it removed keeps
    /// every ammo pickup counted.
    pub proof fn lemma_reap_keeps_ammo_counted(rows: Seq<EntityRow>, info: SpawnInfo)
        requires
            ammo_counted(rows, info),
        ensures
            ammo_counted(
                rows.filter(|row: EntityRow| !row.is_dead()),
                Self::released(info, ammo_among(rows.filter(|row: EntityRow| row.is_dead()))),
            ),
    {
        lemma_ammo_among_split(rows);
    }

    /// Rows that differ in nothing but components other than the pickup
    /// marker hold the same number of ammo pickups.
    pub proof fn lemma_same_pickups(before: Seq<EntityRow>, after: Seq<EntityRow>)
        requires
            before.len() == after.len(),
            forall|i: int| 0 <= i < before.len() ==> (#[trigger] after[i]).power_up == before[i].power_up,
        ensures
            ammo_among(after) == ammo_among(before),
        decreases before.len(),
    {
        if before.len() == 0 {
            assert(before =~= after);
        } else {
            Self::lemma_same_pickups(before.drop_last(), after.drop_last());
            assert(before.drop_last().push(before.last()) =~= before);
            assert(after.drop_last().push(after.last()) =~= after);
            lemma_ammo_among_push(before.drop_last(), before.last());
            lemma_ammo_among_push(after.drop_last(), after.last());
        }
    }

    /// Whatever the cadence and whatever the times of the frames, counters
    /// that start within the cap stay within it, and the cap itself never
    /// changes.
    pub proof fn lemma_cap_holds(info: SpawnInfo, steps: Seq<SpawnStep>, settings: GameSettings)
        requires
            info.within_cap(),
        ensures
            Self::after(info, steps, settings).within_cap(),
            Self::after(info, steps, settings).ammo_max == info.ammo_max,
        decreases steps.len(),
    {
        if steps.len() > 0 {
            Self::lemma_cap_holds(info, steps.drop_last(), settings);
        }
    }

    /// Over any run of spawn frames, deaths and garbage passes, whatever
    /// the cadence and the times, no more ammo pickups stand among the rows
    /// than the cap allows: those created less those removed never exceed
    /// it. In particular this holds from no row and a count of zero.
    pub proof fn lemma_live_ammo_within_cap(
        rows: Seq<EntityRow>,
        info: SpawnInfo,
        steps: Seq<WorldStep>,
        settings: GameSettings,
    )
        requires
            ammo_counted(rows, info),
            Self::spawns_ammo(steps, settings),
        ensures
            ammo_counted(
                Self::world_after(rows, info, steps, settings).0,
                Self::world_after(rows, info, steps, settings).1,
            ),
            ammo_among(Self::world_after(rows, info, steps, settings).0) <= info.ammo_max,
            Self::world_after(rows, info, steps, settings).1.ammo_max == info.ammo_max,
        decreases steps.len(),
    {
        if steps.len() > 0 {
            let front = steps.drop_last();
            assert(Self::spawns_ammo(front, settings)) by {
                assert forall|i: int| 0 <= i < front.len() implies (#[trigger] front[i] matches WorldStep::Spawn {
                    pickup,
                    ..
                } ==> is_ammo(pickup, settings)) by {
                    assert(front[i] == steps[i]);
                }
            }
            Self::lemma_live_ammo_within_cap(rows, info, front, settings);
            let before = Self::world_after(rows, info, front, settings);
            match steps.last() {
                WorldStep::Spawn { now, pickup, entity, handle } => {
                    assert(steps[steps.len() - 1] == steps.last());
                    if Self::due(before.1, now, settings) {
                        Self::lemma_spawn_keeps_ammo_counted(
                            before.0,
                            before.1,
                            now,
                            settings,
                            pickup,
                            entity,
                            handle,
                        );
                    }
                },
                WorldStep::Kill { row } => {
                    if row < before.0.len() {
                        Self::lemma_same_pickups(
                            before.0,
                            before.0.update(
                                row as int,
                                EntityRow {
                                    garbage: Some(GarbageComponent { is_alive: false }),
                                    ..before.0[row as int]
                                },
                            ),
                        );
                    }
                },
                WorldStep::Reap => {
                    Self::lemma_reap_keeps_ammo_counted(before.0, before.1);
                },
            }
        }
    }
}

} // verus!
