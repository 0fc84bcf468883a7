//! Per-cycle decision core of an autonomous soccer-playing robot.
//!
//! Every control tick the robot must choose exactly one motion command and,
//! independently, decide whether to report a detected referee event over the
//! team radio link. The two state machines doing that work are the action
//! scheduler ([`behavior`]) and the referee-signal reporter ([`referee`]).
//! The surrounding modules hold the plain data model both of them consume:
//! decoded game-controller state, the per-cycle world snapshot, motion
//! commands and radio messages, and the LED and sound feedback decisions
//! derived from the same inputs.

pub mod behavior;
pub mod game_controller_filter;
pub mod game_state;
pub mod led;
pub mod led_status;
pub mod messages;
pub mod motion;
pub mod referee;
pub mod wee_sound;
pub mod world;
