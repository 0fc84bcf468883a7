//! The action scheduler: a prioritized, rule-based decision list that turns
//! the world snapshot, game state and role assignment into exactly one motion
//! command per control cycle.
//!
//! [`node`] owns the scheduler state and the per-cycle driver; the sibling
//! modules each hold one candidate behavior's evaluator, a pure function from
//! the snapshot to an optional motion command.

pub mod calibrate;
pub mod defend;
pub mod detect_ref_signal;
pub mod dribble;
pub mod fall_safely;
pub mod head;
pub mod initial;
pub mod jump;
pub mod look_around;
pub mod lost_ball;
pub mod node;
pub mod penalize;
pub mod prepare_jump;
pub mod search;
pub mod sit_down;
pub mod stand;
pub mod stand_up;
pub mod support;
pub mod unstiff;
pub mod walk_to_kick_off;
pub mod walk_to_penalty_kick;
