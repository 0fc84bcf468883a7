//! The shared look action: track the ball when an estimate exists, otherwise
//! keep the head centred.

use vstd::prelude::*;

use crate::motion::HeadMotion;
use crate::world::WorldState;

verus! {

pub open spec fn spec_execute(world_state: WorldState) -> HeadMotion {
    match world_state.ball {
        Some(ball) => HeadMotion::LookAt { target: ball.ball_in_field },
        None => HeadMotion::Center,
    }
}

pub fn execute(world_state: &WorldState) -> (r: HeadMotion)
    ensures
        r == spec_execute(*world_state),
{
    match world_state.ball {
        Some(ball) => HeadMotion::LookAt { target: ball.ball_in_field },
        None => HeadMotion::Center,
    }
}

} // verus!
