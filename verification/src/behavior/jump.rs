//! The keeper's dive during a penalty shootout: jump once a ball estimate
//! exists while play is running; otherwise the preparation posture behind it
//! in the candidate list takes over.

use vstd::prelude::*;

use crate::motion::MotionCommand;
use crate::world::{PrimaryState, WorldState};

verus! {

pub open spec fn spec_execute(world_state: WorldState) -> Option<MotionCommand> {
    if world_state.robot.primary_state is Playing && world_state.ball is Some {
        Some(MotionCommand::Jump)
    } else {
        None
    }
}

pub fn execute(world_state: &WorldState) -> (r: Option<MotionCommand>)
    ensures
        r == spec_execute(*world_state),
{
    match (world_state.robot.primary_state, world_state.ball) {
        (PrimaryState::Playing, Some(_)) => Some(MotionCommand::Jump),
        _ => None,
    }
}

} // verus!
