//! Decide when to play the pick-up jingle: once per lift-off, when the
//! robot loses ground contact while upright, rate-limited by a configurable
//! timeout. Actually playing the sound is the caller's concern; the decision
//! lives here.

use vstd::prelude::*;

use crate::world::{FallState, PrimaryState};

verus! {

pub struct CreationContext {}

/// The per-cycle inputs of the sound decision.
pub struct CycleContext {
    pub fall_state: FallState,
    pub has_ground_contact: bool,
    pub primary_state: PrimaryState,
    /// Minimum silence between two jingles, milliseconds.
    pub wee_sound_timeout: u64,
    /// Monotonic cycle timestamp, milliseconds.
    pub cycle_start_time: u64,
}

/// What one cycle decides: whether to start the jingle now.
pub struct MainOutputs {
    pub play_sound: bool,
}

/// The sound decision's persistent state.
pub struct PlaySound {
    /// The jingle already played for the current lift-off.
    pub sound_played: bool,
    /// When the jingle last started, milliseconds.
    pub last_played: Option<u64>,
}

/// The rate limiter: within the timeout of the last play (or with a clock
/// that ran backwards) the cycle does nothing at all.
pub open spec fn spec_within_timeout(last_played: Option<u64>, now: u64, timeout: u64) -> bool {
    last_played matches Some(last) && (now < last || now - last < timeout)
}

/// The jingle fires when the robot hangs in the air: no ground contact,
/// still upright, and not already played for this lift-off.
pub open spec fn spec_should_play(state: PlaySound, context: CycleContext) -> bool {
    &&& !(context.primary_state is Unstiff)
    &&& !spec_within_timeout(state.last_played, context.cycle_start_time, context.wee_sound_timeout)
    &&& !context.has_ground_contact
    &&& context.fall_state is Upright
    &&& !state.sound_played
}

impl PlaySound {
    pub fn new(_context: CreationContext) -> (r: Self)
        ensures
            r.sound_played == false,
            r.last_played is None,
    {
        PlaySound { sound_played: false, last_played: None }
    }

    /// One control tick. While unstiff or rate-limited nothing moves; a
    /// lift-off plays the jingle once; regained ground contact re-arms it.
    pub fn cycle(&mut self, context: &CycleContext) -> (outputs: MainOutputs)
        ensures
            outputs.play_sound == spec_should_play(*old(self), *context),
            context.primary_state is Unstiff || spec_within_timeout(
                old(self).last_played,
                context.cycle_start_time,
                context.wee_sound_timeout,
            ) ==> *final(self) == *old(self),
            outputs.play_sound ==> final(self).sound_played && final(self).last_played == Some(
                context.cycle_start_time,
            ),
            !(context.primary_state is Unstiff) && !spec_within_timeout(
                old(self).last_played,
                context.cycle_start_time,
                context.wee_sound_timeout,
            ) && !outputs.play_sound ==> final(self).last_played == old(self).last_played
                && final(self).sound_played == (old(self).sound_played
                && !context.has_ground_contact),
    {
        if matches!(context.primary_state, PrimaryState::Unstiff) {
            return MainOutputs { play_sound: false };
        }

        if let Some(last_played) = self.last_played {
            let now = context.cycle_start_time;
            if now < last_played || now - last_played < context.wee_sound_timeout {
                return MainOutputs { play_sound: false };
            }
        }

        if !context.has_ground_contact && matches!(context.fall_state, FallState::Upright)
            && !self.sound_played {
            self.sound_played = true;
            self.last_played = Some(context.cycle_start_time);
            MainOutputs { play_sound: true }
        } else {
            if context.has_ground_contact {
                self.sound_played = false;
            }
            MainOutputs { play_sound: false }
        }
    }
}

} // verus!
