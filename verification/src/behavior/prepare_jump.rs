//! The keeper's ready stance before a penalty shot: arms up, squatting.
//! Always applicable, so the keeper is never without a command during a
//! penalty shootout.

use vstd::prelude::*;

use crate::motion::MotionCommand;
use crate::world::WorldState;

verus! {

pub open spec fn spec_execute(world_state: WorldState) -> Option<MotionCommand> {
    Some(MotionCommand::ArmsUpSquat)
}

pub fn execute(world_state: &WorldState) -> (r: Option<MotionCommand>)
    ensures
        r == spec_execute(*world_state),
{
    Some(MotionCommand::ArmsUpSquat)
}

} // verus!
