//! Hold still for camera calibration while the robot is in the calibration
//! state.

use vstd::prelude::*;

use crate::motion::{HeadMotion, MotionCommand};
use crate::world::{PrimaryState, WorldState};

verus! {

pub open spec fn spec_execute(world_state: WorldState) -> Option<MotionCommand> {
    if world_state.robot.primary_state is Calibration {
        Some(MotionCommand::Stand { head: HeadMotion::Center, is_energy_saving: false })
    } else {
        None
    }
}

pub fn execute(world_state: &WorldState) -> (r: Option<MotionCommand>)
    ensures
        r == spec_execute(*world_state),
{
    match world_state.robot.primary_state {
        PrimaryState::Calibration => Some(
            MotionCommand::Stand { head: HeadMotion::Center, is_energy_saving: false },
        ),
        _ => None,
    }
}

} // verus!
