//! The order of the systems within one frame.

use vstd::prelude::*;

verus! {

/// The systems that one frame runs.
#[derive(Clone, Copy, Debug, PartialEq, Eq, Structural)]
pub enum SystemId {
    Physics,
    Collision,
    Position,
    Controllable,
    Shooting,
    Bounds,
    Lifetime,
    Tween,
    Spawn,
    Garbage,
}

impl SystemId {
    /// Whether this system depends on `other`: it may run only once `other`
    /// has run in the same frame. What reads the physics world follows the
    /// physics step, bounds follow the positions, and the garbage pass
    /// follows every system that marks entities dead.
    pub open spec fn follows(self, other: SystemId) -> bool {
        match (self, other) {
            (SystemId::Collision, SystemId::Physics) => true,
            (SystemId::Position, SystemId::Physics) => true,
            (SystemId::Controllable, SystemId::Physics) => true,
            (SystemId::Bounds, SystemId::Position) => true,
            (SystemId::Garbage, SystemId::Collision) => true,
            (SystemId::Garbage, SystemId::Bounds) => true,
            (SystemId::Garbage, SystemId::Lifetime) => true,
            _ => false,
        }
    }

    pub fn depends_on(&self, other: &SystemId) -> (depends: bool)
        ensures
            depends == self.follows(*other),
    {
        match (self, other) {
            (SystemId::Collision, SystemId::Physics) => true,
            (SystemId::Position, SystemId::Physics) => true,
            (SystemId::Controllable, SystemId::Physics) => true,
            (SystemId::Bounds, SystemId::Position) => true,
            (SystemId::Garbage, SystemId::Collision) => true,
            (SystemId::Garbage, SystemId::Bounds) => true,
            (SystemId::Garbage, SystemId::Lifetime) => true,
            _ => false,
        }
    }
}

/// No system of the order stands before one that it depends on.
pub open spec fn respects_dependencies(order: Seq<SystemId>) -> bool {
    forall|i: int, j: int|
        0 <= i < j < order.len() ==> !(#[trigger] order[i]).follows(#[trigger] order[j])
}

/// The order runs every system exactly once, each after those it depends
/// on.
pub open spec fn is_schedule(order: Seq<SystemId>) -> bool {
    respects_dependencies(order) && order.no_duplicates() && forall|system: SystemId|
        order.contains(system)
}

/// Whether no system of the order stands before one that it depends on.
pub fn check_order(order: &Vec<SystemId>) -> (ok: bool)
    ensures
        ok == respects_dependencies(order@),
{
    let n = order.len();
    let mut j: usize = 0;
    while j < n
        invariant
            j <= n,
            n == order@.len(),
            forall|a: int, b: int|
                0 <= a < b < j ==> !(#[trigger] order@[a]).follows(#[trigger] order@[b]),
        decreases n - j,
    {
        let mut i: usize = 0;
        while i < j
            invariant
                i <= j,
                j < n,
                n == order@.len(),
                forall|a: int| 0 <= a < i ==> !(#[trigger] order@[a]).follows(order@[j as int]),
            decreases j - i,
        {
            if order[i].depends_on(&order[j]) {
                return false;
            }
            i += 1;
        }
        j += 1;
    }
    true
}

/// The order in which a frame runs its systems: the physics step first,
/// the garbage pass last.
pub open spec fn frame_order() -> Seq<SystemId> {
    seq![
        SystemId::Physics,
        SystemId::Collision,
        SystemId::Position,
        SystemId::Controllable,
        SystemId::Shooting,
        SystemId::Bounds,
        SystemId::Lifetime,
        SystemId::Tween,
        SystemId::Spawn,
        SystemId::Garbage,
    ]
}

/// The order in which a frame runs its systems.
pub fn schedule() -> (order: Vec<SystemId>)
    ensures
        order@ == frame_order(),
        is_schedule(order@),
{
    let mut order: Vec<SystemId> = Vec::new();
    order.push(SystemId::Physics);
    order.push(SystemId::Collision);
    order.push(SystemId::Position);
    order.push(SystemId::Controllable);
    order.push(SystemId::Shooting);
    order.push(SystemId::Bounds);
    order.push(SystemId::Lifetime);
    order.push(SystemId::Tween);
    order.push(SystemId::Spawn);
    order.push(SystemId::Garbage);
    proof {
        assert(order@ =~= frame_order());
        assert(order@[0] == SystemId::Physics);
        assert(order@[1] == SystemId::Collision);
        assert(order@[2] == SystemId::Position);
        assert(order@[3] == SystemId::Controllable);
        assert(order@[4] == SystemId::Shooting);
        assert(order@[5] == SystemId::Bounds);
        assert(order@[6] == SystemId::Lifetime);
        assert(order@[7] == SystemId::Tween);
        assert(order@[8] == SystemId::Spawn);
        assert(order@[9] == SystemId::Garbage);
        assert forall|system: SystemId| order@.contains(system) by {
            match system {
                SystemId::Physics => assert(order@[0] == system),
                SystemId::Collision => assert(order@[1] == system),
                SystemId::Position => assert(order@[2] == system),
                SystemId::Controllable => assert(order@[3] == system),
                SystemId::Shooting => assert(order@[4] == system),
                SystemId::Bounds => assert(order@[5] == system),
                SystemId::Lifetime => assert(order@[6] == system),
                SystemId::Tween => assert(order@[7] == system),
                SystemId::Spawn => assert(order@[8] == system),
                SystemId::Garbage => assert(order@[9] == system),
            }
        }
    }
    order
}

} // verus!
