//! Walk up to the opponent penalty marker to take a penalty kick. Without
//! a localization pose the action reports "not applicable".

use vstd::prelude::*;

use crate::behavior::head;
use crate::motion::MotionCommand;
use crate::world::{FieldDimensions, FieldPoint, WorldState};

verus! {

pub open spec fn spec_penalty_kick_position(field_dimensions: FieldDimensions) -> FieldPoint {
    FieldPoint {
        x: (field_dimensions.length / 2 - field_dimensions.penalty_marker_distance) as i64,
        y: 0,
    }
}

pub open spec fn spec_execute(
    world_state: WorldState,
    field_dimensions: FieldDimensions,
) -> Option<MotionCommand> {
    if world_state.robot.robot_to_field is Some {
        Some(
            MotionCommand::Walk {
                target: spec_penalty_kick_position(field_dimensions),
                head: head::spec_execute(world_state),
            },
        )
    } else {
        None
    }
}

pub fn execute(world_state: &WorldState, field_dimensions: &FieldDimensions) -> (r: Option<
    MotionCommand,
>)
    requires
        field_dimensions.wf(),
    ensures
        r == spec_execute(*world_state, *field_dimensions),
{
    if world_state.robot.robot_to_field.is_some() {
        Some(
            MotionCommand::Walk {
                target: FieldPoint {
                    x: field_dimensions.length / 2 - field_dimensions.penalty_marker_distance,
                    y: 0,
                },
                head: head::execute(world_state),
            },
        )
    } else {
        None
    }
}

} // verus!
