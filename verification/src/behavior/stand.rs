//! Stand still in the phases where the rules demand it: the initial state
//! (also without a localization pose) and the set phase before kickoff.

use vstd::prelude::*;

use crate::motion::{HeadMotion, MotionCommand};
use crate::world::{PrimaryState, WorldState};

verus! {

pub open spec fn spec_execute(world_state: WorldState) -> Option<MotionCommand> {
    match world_state.robot.primary_state {
        PrimaryState::Initial | PrimaryState::Setup => Some(
            MotionCommand::Stand { head: HeadMotion::Center, is_energy_saving: false },
        ),
        _ => None,
    }
}

pub fn execute(world_state: &WorldState) -> (r: Option<MotionCommand>)
    ensures
        r == spec_execute(*world_state),
{
    match world_state.robot.primary_state {
        PrimaryState::Initial | PrimaryState::Setup => Some(
            MotionCommand::Stand { head: HeadMotion::Center, is_energy_saving: false },
        ),
        _ => None,
    }
}

} // verus!
