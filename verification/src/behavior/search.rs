//! Search for the ball: head towards the centre of the field scanning the
//! surroundings. Without a localization pose the action reports "not
//! applicable".

use vstd::prelude::*;

use crate::motion::{HeadMotion, MotionCommand};
use crate::world::{FieldDimensions, FieldPoint, WorldState};

verus! {

pub open spec fn spec_execute(
    world_state: WorldState,
    field_dimensions: FieldDimensions,
) -> Option<MotionCommand> {
    if world_state.robot.robot_to_field is Some {
        Some(
            MotionCommand::Walk {
                target: FieldPoint { x: 0, y: 0 },
                head: HeadMotion::LookAround,
            },
        )
    } else {
        None
    }
}

pub fn execute(world_state: &WorldState, field_dimensions: &FieldDimensions) -> (r: Option<
    MotionCommand,
>)
    requires
        field_dimensions.wf(),
    ensures
        r == spec_execute(*world_state, *field_dimensions),
{
    if world_state.robot.robot_to_field.is_some() {
        Some(
            MotionCommand::Walk {
                target: FieldPoint { x: 0, y: 0 },
                head: HeadMotion::LookAround,
            },
        )
    } else {
        None
    }
}

} // verus!
