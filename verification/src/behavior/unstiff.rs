//! Release all joint stiffness while the robot is in the unstiff state.

use vstd::prelude::*;

use crate::motion::MotionCommand;
use crate::world::{PrimaryState, WorldState};

verus! {

pub open spec fn spec_execute(world_state: WorldState) -> Option<MotionCommand> {
    if world_state.robot.primary_state is Unstiff {
        Some(MotionCommand::Unstiff)
    } else {
        None
    }
}

pub fn execute(world_state: &WorldState) -> (r: Option<MotionCommand>)
    ensures
        r == spec_execute(*world_state),
{
    match world_state.robot.primary_state {
        PrimaryState::Unstiff => Some(MotionCommand::Unstiff),
        _ => None,
    }
}

} // verus!
