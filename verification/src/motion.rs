//! The action catalog and the motion commands the scheduler can emit.
//!
//! An [`Action`] is a candidate behavior; a [`MotionCommand`] is the directive
//! the winning behavior hands to the motion layer. Look-at targets are given
//! in field coordinates; expressing them in the robot's own frame is the
//! motion layer's concern.

use vstd::prelude::*;

use crate::world::FieldPoint;

verus! {

/// One named candidate behavior of the scheduler's fixed catalog.
#[derive(Clone, Copy, Debug, PartialEq, Eq, Structural)]
pub enum Action {
    Unstiff,
    SitDown,
    Penalize,
    Initial,
    FallSafely,
    StandUp,
    Stand,
    Calibrate,
    DetectRefSignal,
    LookAround,
    DefendGoal,
    DefendKickOff,
    DefendLeft,
    DefendRight,
    DefendPenaltyKick,
    Dribble,
    Jump,
    PrepareJump,
    Search,
    SearchForLostBall,
    SupportLeft,
    SupportRight,
    SupportStriker,
    WalkToKickOff,
    WalkToPenaltyKick,
}

/// What the head should do while the body executes the command.
#[derive(Clone, Copy, Debug, PartialEq, Eq, Structural)]
pub enum HeadMotion {
    Center,
    /// Track the given point, expressed in field coordinates.
    LookAt { target: FieldPoint },
    /// Sweep the head to scan the surroundings.
    LookAround,
}

/// The single motion directive produced each cycle.
#[derive(Clone, Copy, Debug, PartialEq, Eq, Structural)]
pub enum MotionCommand {
    Unstiff,
    SitDown,
    Penalized,
    FallProtection,
    StandUp,
    ArmsUpSquat,
    Jump,
    Stand { head: HeadMotion, is_energy_saving: bool },
    /// Walk towards the given point in field coordinates.
    Walk { target: FieldPoint, head: HeadMotion },
}

} // verus!
