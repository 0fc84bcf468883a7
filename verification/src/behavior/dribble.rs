//! Take the ball forward: walk onto the ball position while tracking it.
//! Without a ball estimate or a localization pose the action reports "not
//! applicable" and a later candidate (or the scheduler's fallback) takes
//! over.

use vstd::prelude::*;

use crate::motion::{HeadMotion, MotionCommand};
use crate::world::WorldState;

verus! {

pub open spec fn spec_execute(world_state: WorldState) -> Option<MotionCommand> {
    match (world_state.robot.robot_to_field, world_state.ball) {
        (Some(_), Some(ball)) => Some(
            MotionCommand::Walk {
                target: ball.ball_in_field,
                head: HeadMotion::LookAt { target: ball.ball_in_field },
            },
        ),
        _ => None,
    }
}

pub fn execute(world_state: &WorldState) -> (r: Option<MotionCommand>)
    ensures
        r == spec_execute(*world_state),
{
    match (world_state.robot.robot_to_field, world_state.ball) {
        (Some(_), Some(ball)) => Some(
            MotionCommand::Walk {
                target: ball.ball_in_field,
                head: HeadMotion::LookAt { target: ball.ball_in_field },
            },
        ),
        _ => None,
    }
}

} // verus!
