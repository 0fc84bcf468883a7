//! Walk back to where the ball was last seen, scanning for it on the way.
//! The target is the position the scheduler cached the last time any ball
//! estimate existed. Without a localization pose the action reports "not
//! applicable".

use vstd::prelude::*;

use crate::motion::{HeadMotion, MotionCommand};
use crate::world::{FieldPoint, WorldState};

verus! {

pub open spec fn spec_execute(
    world_state: WorldState,
    absolute_last_known_ball_position: FieldPoint,
) -> Option<MotionCommand> {
    if world_state.robot.robot_to_field is Some {
        Some(
            MotionCommand::Walk {
                target: absolute_last_known_ball_position,
                head: HeadMotion::LookAround,
            },
        )
    } else {
        None
    }
}

pub fn execute(
    world_state: &WorldState,
    absolute_last_known_ball_position: FieldPoint,
) -> (r: Option<MotionCommand>)
    ensures
        r == spec_execute(*world_state, absolute_last_known_ball_position),
{
    if world_state.robot.robot_to_field.is_some() {
        Some(
            MotionCommand::Walk {
                target: absolute_last_known_ball_position,
                head: HeadMotion::LookAround,
            },
        )
    } else {
        None
    }
}

} // verus!
