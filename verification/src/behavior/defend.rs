//! The defensive tactics: walk to a nominal defensive post and keep an eye on
//! the ball. The exact defensive geometry is owned by the motion layer; the
//! posts here are nominal positions derived from the field dimensions.
//!
//! Without a localization pose a defensive tactic reports "not applicable"
//! and the scheduler falls through to its safe fallback.

use vstd::prelude::*;

use crate::behavior::head;
use crate::motion::MotionCommand;
use crate::world::{FieldDimensions, FieldPoint, WorldState};

verus! {

/// Walk to `target` watching the ball; not applicable without a pose.
pub open spec fn spec_walk_to_post(
    world_state: WorldState,
    target: FieldPoint,
) -> Option<MotionCommand> {
    if world_state.robot.robot_to_field is Some {
        Some(MotionCommand::Walk { target, head: head::spec_execute(world_state) })
    } else {
        None
    }
}

fn walk_to_post(world_state: &WorldState, target: FieldPoint) -> (r: Option<MotionCommand>)
    ensures
        r == spec_walk_to_post(*world_state, target),
{
    if world_state.robot.robot_to_field.is_some() {
        Some(MotionCommand::Walk { target, head: head::execute(world_state) })
    } else {
        None
    }
}

pub open spec fn spec_goal_post(field_dimensions: FieldDimensions) -> FieldPoint {
    FieldPoint { x: (-(field_dimensions.length / 2)) as i64, y: 0 }
}

pub open spec fn spec_kick_off_post(field_dimensions: FieldDimensions) -> FieldPoint {
    FieldPoint { x: (-(field_dimensions.length / 8)) as i64, y: 0 }
}

pub open spec fn spec_left_post(field_dimensions: FieldDimensions) -> FieldPoint {
    FieldPoint {
        x: (-(field_dimensions.length / 4)) as i64,
        y: (field_dimensions.width / 4) as i64,
    }
}

pub open spec fn spec_right_post(field_dimensions: FieldDimensions) -> FieldPoint {
    FieldPoint {
        x: (-(field_dimensions.length / 4)) as i64,
        y: (-(field_dimensions.width / 4)) as i64,
    }
}

pub open spec fn spec_penalty_kick_post(field_dimensions: FieldDimensions) -> FieldPoint {
    FieldPoint { x: (-(field_dimensions.length / 2)) as i64, y: 0 }
}

pub fn goal(world_state: &WorldState, field_dimensions: &FieldDimensions) -> (r: Option<
    MotionCommand,
>)
    requires
        field_dimensions.wf(),
    ensures
        r == spec_walk_to_post(*world_state, spec_goal_post(*field_dimensions)),
{
    walk_to_post(world_state, FieldPoint { x: -(field_dimensions.length / 2), y: 0 })
}

pub fn kick_off(world_state: &WorldState, field_dimensions: &FieldDimensions) -> (r: Option<
    MotionCommand,
>)
    requires
        field_dimensions.wf(),
    ensures
        r == spec_walk_to_post(*world_state, spec_kick_off_post(*field_dimensions)),
{
    walk_to_post(world_state, FieldPoint { x: -(field_dimensions.length / 8), y: 0 })
}

pub fn left(world_state: &WorldState, field_dimensions: &FieldDimensions) -> (r: Option<
    MotionCommand,
>)
    requires
        field_dimensions.wf(),
    ensures
        r == spec_walk_to_post(*world_state, spec_left_post(*field_dimensions)),
{
    walk_to_post(
        world_state,
        FieldPoint { x: -(field_dimensions.length / 4), y: field_dimensions.width / 4 },
    )
}

pub fn right(world_state: &WorldState, field_dimensions: &FieldDimensions) -> (r: Option<
    MotionCommand,
>)
    requires
        field_dimensions.wf(),
    ensures
        r == spec_walk_to_post(*world_state, spec_right_post(*field_dimensions)),
{
    walk_to_post(
        world_state,
        FieldPoint { x: -(field_dimensions.length / 4), y: -(field_dimensions.width / 4) },
    )
}

pub fn penalty_kick(world_state: &WorldState, field_dimensions: &FieldDimensions) -> (r: Option<
    MotionCommand,
>)
    requires
        field_dimensions.wf(),
    ensures
        r == spec_walk_to_post(*world_state, spec_penalty_kick_post(*field_dimensions)),
{
    walk_to_post(world_state, FieldPoint { x: -(field_dimensions.length / 2), y: 0 })
}

} // verus!
