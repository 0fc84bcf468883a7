//! Sweep the head to rebuild the world model right after the robot becomes
//! active. The scheduler enqueues this candidate only during the configured
//! look-around window.

use vstd::prelude::*;

use crate::motion::{HeadMotion, MotionCommand};
use crate::world::{PrimaryState, WorldState};

verus! {

pub open spec fn spec_execute(world_state: WorldState) -> Option<MotionCommand> {
    match world_state.robot.primary_state {
        PrimaryState::Ready | PrimaryState::Playing => Some(
            MotionCommand::Stand { head: HeadMotion::LookAround, is_energy_saving: false },
        ),
        _ => None,
    }
}

pub fn execute(world_state: &WorldState) -> (r: Option<MotionCommand>)
    ensures
        r == spec_execute(*world_state),
{
    match world_state.robot.primary_state {
        PrimaryState::Ready | PrimaryState::Playing => Some(
            MotionCommand::Stand { head: HeadMotion::LookAround, is_energy_saving: false },
        ),
        _ => None,
    }
}

} // verus!
