//! Steering of the entities that input controls.

use vstd::prelude::*;
use std::collections::HashMap;
use crate::components::{BodyHandle, EntityRow, PositionComponent};
use crate::entities::{create_death_explosion, is_fragment, Blueprint, Velocity};
use crate::resources::Input;

verus! {

/// What one frame of steering turns a heading by, in thousandths of a
/// radian.
pub const TURN_INCREMENT: i64 = 50;

/// Speed of a steered body, in fixed-point pixels per second.
pub const CONTROLLED_SPEED: i64 = 250_000;

/// What steering asks of a body for one frame: its new pose and its new
/// linear velocity.
#[derive(Clone, Copy, Debug, PartialEq, Eq, Structural)]
pub struct Steering {
    pub pose: PositionComponent,
    pub velocity: Velocity,
}

pub struct ControllableSystem;

impl ControllableSystem {
    /// The heading after one frame: turned down by the increment where
    /// left is held, up where only right is held, unchanged otherwise.
    pub open spec fn heading_after(angle: int, input: Input) -> int {
        if input.left {
            angle - TURN_INCREMENT
        } else if input.right {
            angle + TURN_INCREMENT
        } else {
            angle
        }
    }

    /// The heading after `frames` frames under the same input.
    pub open spec fn heading_after_frames(angle: int, input: Input, frames: nat) -> int
        decreases frames,
    {
        if frames == 0 {
            angle
        } else {
            Self::heading_after(
                Self::heading_after_frames(angle, input, (frames - 1) as nat),
                input,
            )
        }
    }

    /// What one frame asks of a body at `pose`: the same place under the
    /// new heading, and the fixed speed along the new heading.
    pub open spec fn step_spec(pose: PositionComponent, input: Input) -> Steering {
        let angle = Self::heading_after(pose.angle as int, input) as i64;
        Steering {
            pose: PositionComponent { x: pose.x, y: pose.y, angle },
            velocity: Velocity::Polar { angle, speed: CONTROLLED_SPEED },
        }
    }

    /// Whether a heading can be turned either way without leaving the
    /// range of the integer that holds it.
    pub open spec fn can_turn(pose: PositionComponent) -> bool {
        i64::MIN + TURN_INCREMENT <= pose.angle <= i64::MAX - TURN_INCREMENT
    }

    pub fn step(pose: PositionComponent, input: &Input) -> (steering: Steering)
        requires
            Self::can_turn(pose),
        ensures
            steering == Self::step_spec(pose, *input),
    {
        let new_angle = if input.left {
            pose.angle - TURN_INCREMENT
        } else if input.right {
            pose.angle + TURN_INCREMENT
        } else {
            pose.angle
        };
        Steering {
            pose: PositionComponent { x: pose.x, y: pose.y, angle: new_angle },
            velocity: Velocity::Polar { angle: new_angle, speed: CONTROLLED_SPEED },
        }
    }

    /// What the frame asks of the row's body: a row that is controlled and
    /// has a rigid body whose pose is known is steered from that pose.
    pub open spec fn steering_of(
        row: EntityRow,
        poses: Map<BodyHandle, PositionComponent>,
        input: Input,
    ) -> Option<(BodyHandle, Steering)> {
        match (row.controllable, row.rigid_body) {
            (Some(_), Some(body)) => if poses.contains_key(body.handle) {
                Some((body.handle, Self::step_spec(poses[body.handle], input)))
            } else {
                None
            },
            _ => None,
        }
    }

    /// What the frame asks of the bodies of the rows, in the order of the
    /// rows: one steering for each controlled row.
    pub open spec fn steerings_of(
        rows: Seq<EntityRow>,
        poses: Map<BodyHandle, PositionComponent>,
        input: Input,
    ) -> Seq<(BodyHandle, Steering)>
        decreases rows.len(),
    {
        if rows.len() == 0 {
            Seq::empty()
        } else {
            let earlier = Self::steerings_of(rows.drop_last(), poses, input);
            match Self::steering_of(rows.last(), poses, input) {
                Some(steering) => earlier.push(steering),
                None => earlier,
            }
        }
    }

    /// Steers every controlled body once. `poses` holds where each body is
    /// and how it is turned; the result names each steered body and what
    /// is asked of it. A controlled row whose body has no pose is passed
    /// over.
    pub fn run(
        &self,
        input: &Input,
        poses: &HashMap<BodyHandle, PositionComponent>,
        rows: &Vec<EntityRow>,
    ) -> (steerings: Vec<(BodyHandle, Steering)>)
        requires
            forall|h: BodyHandle| #[trigger] poses@.contains_key(h) ==> Self::can_turn(poses@[h]),
        ensures
            steerings@ == Self::steerings_of(rows@, poses@, *input),
    {
        broadcast use vstd::std_specs::hash::group_hash_axioms;

        let n = rows.len();
        let mut steerings: Vec<(BodyHandle, Steering)> = Vec::new();
        let mut i: usize = 0;
        while i < n
            invariant
                i <= n,
                n == rows@.len(),
                forall|h: BodyHandle| #[trigger]
                    poses@.contains_key(h) ==> Self::can_turn(poses@[h]),
                steerings@ == Self::steerings_of(rows@.subrange(0, i as int), poses@, *input),
            decreases n - i,
        {
            proof {
                assert(rows@.subrange(0, i as int + 1).drop_last() =~= rows@.subrange(0, i as int));
            }
            let row = rows[i];
            match (row.controllable, row.rigid_body) {
                (Some(_), Some(body)) => {
                    match poses.get(&body.handle) {
                        Some(pose) => {
                            let steering = Self::step(*pose, input);
                            steerings.push((body.handle, steering));
                        },
                        None => {},
                    }
                },
                _ => {},
            }
            i += 1;
        }
        proof {
            assert(rows@.subrange(0, n as int) =~= rows@);
        }
        steerings
    }

    /// The fragments that an attack scatters from a controlled body at
    /// `pose`: those of one death explosion there while attack is held,
    /// none otherwise.
    pub fn attack(input: &Input, pose: PositionComponent) -> (fragments: Vec<Blueprint>)
        ensures
            !input.attack ==> fragments@.len() == 0,
            input.attack ==> 4 <= fragments@.len() < 30,
            forall|i: int|
                0 <= i < fragments@.len() ==> is_fragment(#[trigger] fragments@[i], pose.x, pose.y),
    {
        if input.attack {
            create_death_explosion(pose.x, pose.y)
        } else {
            Vec::new()
        }
    }

    /// With left held for `frames` frames the heading ends `frames`
    /// increments below where it began; with only right held, as many
    /// above; with neither, where it began.
    pub proof fn lemma_heading_after_frames(angle: int, input: Input, frames: nat)
        ensures
            input.left ==> Self::heading_after_frames(angle, input, frames) == angle - frames
                * TURN_INCREMENT,
            !input.left && input.right ==> Self::heading_after_frames(angle, input, frames)
                == angle + frames * TURN_INCREMENT,
            !input.left && !input.right ==> Self::heading_after_frames(angle, input, frames)
                == angle,
        decreases frames,
    {
        if frames > 0 {
            Self::lemma_heading_after_frames(angle, input, (frames - 1) as nat);
            assert(frames * TURN_INCREMENT == (frames - 1) * TURN_INCREMENT + TURN_INCREMENT)
                by (nonlinear_arith);
        }
    }
}

} // verus!
