//! Sit down once the game is over.

use vstd::prelude::*;

use crate::motion::MotionCommand;
use crate::world::{PrimaryState, WorldState};

verus! {

pub open spec fn spec_execute(world_state: WorldState) -> Option<MotionCommand> {
    if world_state.robot.primary_state is Finished {
        Some(MotionCommand::SitDown)
    } else {
        None
    }
}

pub fn execute(world_state: &WorldState) -> (r: Option<MotionCommand>)
    ensures
        r == spec_execute(*world_state),
{
    match world_state.robot.primary_state {
        PrimaryState::Finished => Some(MotionCommand::SitDown),
        _ => None,
    }
}

} // verus!
