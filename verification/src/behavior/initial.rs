//! Stand at ease in the initial state, facing the centre of the field.
//!
//! Needs a localization pose to know where the centre is; without one the
//! action reports "not applicable" and a later candidate takes over.

use vstd::prelude::*;

use crate::motion::{HeadMotion, MotionCommand};
use crate::world::{FieldPoint, PrimaryState, WorldState};

verus! {

pub open spec fn spec_execute(world_state: WorldState) -> Option<MotionCommand> {
    if world_state.robot.primary_state is Initial && world_state.robot.robot_to_field is Some {
        Some(
            MotionCommand::Stand {
                head: HeadMotion::LookAt { target: FieldPoint { x: 0, y: 0 } },
                is_energy_saving: true,
            },
        )
    } else {
        None
    }
}

pub fn execute(world_state: &WorldState) -> (r: Option<MotionCommand>)
    ensures
        r == spec_execute(*world_state),
{
    match (world_state.robot.primary_state, world_state.robot.robot_to_field) {
        (PrimaryState::Initial, Some(_)) => Some(
            MotionCommand::Stand {
                head: HeadMotion::LookAt { target: FieldPoint { x: 0, y: 0 } },
                is_energy_saving: true,
            },
        ),
        _ => None,
    }
}

} // verus!
