//! Hold the penalized posture while a penalty is called against this robot.

use vstd::prelude::*;

use crate::motion::MotionCommand;
use crate::world::{PrimaryState, WorldState};

verus! {

pub open spec fn spec_execute(world_state: WorldState) -> Option<MotionCommand> {
    if world_state.robot.primary_state is Penalized {
        Some(MotionCommand::Penalized)
    } else {
        None
    }
}

pub fn execute(world_state: &WorldState) -> (r: Option<MotionCommand>)
    ensures
        r == spec_execute(*world_state),
{
    match world_state.robot.primary_state {
        PrimaryState::Penalized => Some(MotionCommand::Penalized),
        _ => None,
    }
}

} // verus!
