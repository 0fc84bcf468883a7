//! Assume the protective posture while the robot is falling.

use vstd::prelude::*;

use crate::motion::MotionCommand;
use crate::world::{FallState, WorldState};

verus! {

pub open spec fn spec_execute(world_state: WorldState) -> Option<MotionCommand> {
    if world_state.robot.fall_state is Falling {
        Some(MotionCommand::FallProtection)
    } else {
        None
    }
}

pub fn execute(world_state: &WorldState) -> (r: Option<MotionCommand>)
    ensures
        r == spec_execute(*world_state),
{
    match world_state.robot.fall_state {
        FallState::Falling => Some(MotionCommand::FallProtection),
        _ => None,
    }
}

} // verus!
