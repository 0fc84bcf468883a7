//! The supporting tactics: stand off the ball at forty-five degrees on the
//! chosen side, with the x coordinate clamped to the role's corridor.
//! Without a localization pose the action reports "not applicable".
//!
//! Distances are integer millimetres; the forty-five-degree offset uses the
//! fixed ratio 707/1000 for one over the square root of two.

use vstd::prelude::*;

use crate::behavior::head;
use crate::motion::MotionCommand;
use crate::world::{
    BallState, FieldDimensions, FieldPoint, FilteredGameState, Side, WorldState, MAX_COORDINATE,
};

verus! {

/// Clamp `x` into the corridor spanned by `a` and `b`, whichever order they
/// come in.
pub open spec fn spec_clamp_between(x: int, a: int, b: int) -> int {
    let lo = if a <= b {
        a
    } else {
        b
    };
    let hi = if a <= b {
        b
    } else {
        a
    };
    if x < lo {
        lo
    } else if x > hi {
        hi
    } else {
        x
    }
}

fn clamp_between(x: i64, a: i64, b: i64) -> (r: i64)
    ensures
        r == spec_clamp_between(x as int, a as int, b as int),
{
    let lo = if a <= b {
        a
    } else {
        b
    };
    let hi = if a <= b {
        b
    } else {
        a
    };
    if x < lo {
        lo
    } else if x > hi {
        hi
    } else {
        x
    }
}

/// The ball estimate the support position is computed from: the fused
/// estimate when one exists, the centre of the field otherwise.
pub open spec fn spec_ball_or_default(world_state: WorldState) -> BallState {
    match world_state.ball {
        Some(ball) => ball,
        None => BallState { ball_in_field: FieldPoint { x: 0, y: 0 }, field_side: Side::Left },
    }
}

/// The supporting position: offset from the ball by `distance_to_ball` at
/// forty-five degrees towards the own half, on the given side (or opposite
/// the ball's side), with x clamped to the role's corridor. `None` without a
/// localization pose.
pub open spec fn spec_support_pose(
    world_state: WorldState,
    field_dimensions: FieldDimensions,
    field_side: Option<Side>,
    distance_to_ball: int,
    maximum_x_in_ready_and_when_ball_is_not_free: int,
    minimum_x: int,
) -> Option<FieldPoint> {
    if world_state.robot.robot_to_field is Some {
        let ball = spec_ball_or_default(world_state);
        let side = match field_side {
            Some(side) => side,
            None => ball.field_side.spec_opposite(),
        };
        let offset = distance_to_ball * 707 / 1000;
        let support_x = ball.ball_in_field.x - offset;
        let support_y = match side {
            Side::Left => ball.ball_in_field.y + offset,
            Side::Right => ball.ball_in_field.y - offset,
        };
        let clamped_x = match world_state.filtered_game_state {
            Some(FilteredGameState::Ready { .. }) => spec_clamp_between(
                support_x,
                minimum_x,
                maximum_x_in_ready_and_when_ball_is_not_free,
            ),
            Some(FilteredGameState::Playing { ball_is_free: false }) => spec_clamp_between(
                support_x,
                minimum_x,
                maximum_x_in_ready_and_when_ball_is_not_free,
            ),
            _ => spec_clamp_between(support_x, minimum_x, field_dimensions.length / 2),
        };
        Some(FieldPoint { x: clamped_x as i64, y: support_y as i64 })
    } else {
        None
    }
}

pub open spec fn spec_execute(
    world_state: WorldState,
    field_dimensions: FieldDimensions,
    field_side: Option<Side>,
    distance_to_ball: int,
    maximum_x_in_ready_and_when_ball_is_not_free: int,
    minimum_x: int,
) -> Option<MotionCommand> {
    match spec_support_pose(
        world_state,
        field_dimensions,
        field_side,
        distance_to_ball,
        maximum_x_in_ready_and_when_ball_is_not_free,
        minimum_x,
    ) {
        Some(target) => Some(
            MotionCommand::Walk { target, head: head::spec_execute(world_state) },
        ),
        None => None,
    }
}

pub fn execute(
    world_state: &WorldState,
    field_dimensions: &FieldDimensions,
    field_side: Option<Side>,
    distance_to_ball: i64,
    maximum_x_in_ready_and_when_ball_is_not_free: i64,
    minimum_x: i64,
) -> (r: Option<MotionCommand>)
    requires
        world_state.wf(),
        field_dimensions.wf(),
        0 <= distance_to_ball <= MAX_COORDINATE,
        -MAX_COORDINATE <= maximum_x_in_ready_and_when_ball_is_not_free <= MAX_COORDINATE,
        -MAX_COORDINATE <= minimum_x <= MAX_COORDINATE,
    ensures
        r == spec_execute(
            *world_state,
            *field_dimensions,
            field_side,
            distance_to_ball as int,
            maximum_x_in_ready_and_when_ball_is_not_free as int,
            minimum_x as int,
        ),
{
    if world_state.robot.robot_to_field.is_none() {
        return None;
    }
    let ball = match world_state.ball {
        Some(ball) => ball,
        None => BallState { ball_in_field: FieldPoint { x: 0, y: 0 }, field_side: Side::Left },
    };
    let side = match field_side {
        Some(side) => side,
        None => ball.field_side.opposite(),
    };
    let offset = distance_to_ball * 707 / 1000;
    let support_x = ball.ball_in_field.x - offset;
    let support_y = match side {
        Side::Left => ball.ball_in_field.y + offset,
        Side::Right => ball.ball_in_field.y - offset,
    };
    let clamped_x = match world_state.filtered_game_state {
        Some(FilteredGameState::Ready { .. }) | Some(
            FilteredGameState::Playing { ball_is_free: false },
        ) => clamp_between(
            support_x,
            minimum_x,
            maximum_x_in_ready_and_when_ball_is_not_free,
        ),
        _ => clamp_between(support_x, minimum_x, field_dimensions.length / 2),
    };
    Some(
        MotionCommand::Walk {
            target: FieldPoint { x: clamped_x, y: support_y },
            head: head::execute(world_state),
        },
    )
}

} // verus!
