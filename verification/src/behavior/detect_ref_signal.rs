//! Watch the referee for a hand signal: stand still and track the T junction
//! of the sideline where the referee stands.
//!
//! Needs a localization pose to aim the head; without one the action reports
//! "not applicable" instead of failing the cycle.

use vstd::prelude::*;

use crate::behavior::node::VisRefFieldSide;
use crate::motion::{HeadMotion, MotionCommand};
use crate::world::{FieldDimensions, FieldPoint, PrimaryState, WorldState};

verus! {

/// Where the referee stands: the T junction of the halfway line with one of
/// the two sidelines.
pub open spec fn spec_referee_location(
    field_dimensions: FieldDimensions,
    field_side: VisRefFieldSide,
) -> FieldPoint {
    match field_side {
        VisRefFieldSide::Left => FieldPoint { x: (field_dimensions.length / 2) as i64, y: 0 },
        VisRefFieldSide::Right => FieldPoint {
            x: (field_dimensions.length / 2) as i64,
            y: field_dimensions.width,
        },
    }
}

pub open spec fn spec_execute(
    world_state: WorldState,
    field_dimensions: FieldDimensions,
    field_side: VisRefFieldSide,
) -> Option<MotionCommand> {
    if world_state.robot.robot_to_field is Some {
        match world_state.robot.primary_state {
            PrimaryState::Ready | PrimaryState::Setup | PrimaryState::Playing => Some(
                MotionCommand::Stand {
                    head: HeadMotion::LookAt {
                        target: spec_referee_location(field_dimensions, field_side),
                    },
                    is_energy_saving: false,
                },
            ),
            _ => None,
        }
    } else {
        None
    }
}

pub fn execute(
    world_state: &WorldState,
    field_dimensions: &FieldDimensions,
    field_side: VisRefFieldSide,
) -> (r: Option<MotionCommand>)
    requires
        field_dimensions.wf(),
    ensures
        r == spec_execute(*world_state, *field_dimensions, field_side),
{
    if world_state.robot.robot_to_field.is_none() {
        return None;
    }
    let target = match field_side {
        VisRefFieldSide::Left => FieldPoint { x: (field_dimensions.length / 2) as i64, y: 0 },
        VisRefFieldSide::Right => FieldPoint {
            x: (field_dimensions.length / 2) as i64,
            y: field_dimensions.width,
        },
    };
    match world_state.robot.primary_state {
        PrimaryState::Ready | PrimaryState::Setup | PrimaryState::Playing => Some(
            MotionCommand::Stand {
                head: HeadMotion::LookAt { target },
                is_energy_saving: false,
            },
        ),
        _ => None,
    }
}

} // verus!
