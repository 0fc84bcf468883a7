//! Get back on the feet after a fall.

use vstd::prelude::*;

use crate::motion::MotionCommand;
use crate::world::{FallState, WorldState};

verus! {

pub open spec fn spec_execute(world_state: WorldState) -> Option<MotionCommand> {
    if world_state.robot.fall_state is Fallen {
        Some(MotionCommand::StandUp)
    } else {
        None
    }
}

pub fn execute(world_state: &WorldState) -> (r: Option<MotionCommand>)
    ensures
        r == spec_execute(*world_state),
{
    match world_state.robot.fall_state {
        FallState::Fallen => Some(MotionCommand::StandUp),
        _ => None,
    }
}

} // verus!
