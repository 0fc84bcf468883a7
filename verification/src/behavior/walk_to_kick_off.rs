//! Take the kickoff position just behind the centre of the field while our
//! team has the kickoff. Without a localization pose the action reports
//! "not applicable".

use vstd::prelude::*;

use crate::behavior::head;
use crate::motion::MotionCommand;
use crate::world::{FieldDimensions, FieldPoint, WorldState};

verus! {

pub open spec fn spec_kick_off_position(field_dimensions: FieldDimensions) -> FieldPoint {
    FieldPoint { x: (-(field_dimensions.length / 20)) as i64, y: 0 }
}

pub open spec fn spec_execute(
    world_state: WorldState,
    field_dimensions: FieldDimensions,
) -> Option<MotionCommand> {
    if world_state.robot.robot_to_field is Some {
        Some(
            MotionCommand::Walk {
                target: spec_kick_off_position(field_dimensions),
                head: head::spec_execute(world_state),
            },
        )
    } else {
        None
    }
}

pub fn execute(world_state: &WorldState, field_dimensions: &FieldDimensions) -> (r: Option<
    MotionCommand,
>)
    requires
        field_dimensions.wf(),
    ensures
        r == spec_execute(*world_state, *field_dimensions),
{
    if world_state.robot.robot_to_field.is_some() {
        Some(
            MotionCommand::Walk {
                target: FieldPoint { x: -(field_dimensions.length / 20), y: 0 },
                head: head::execute(world_state),
            },
        )
    } else {
        None
    }
}

} // verus!
