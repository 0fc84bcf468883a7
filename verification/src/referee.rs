//! The referee-signal reporter: a timing state machine that watches for a
//! whistle, opens a bounded reporting episode, and emits at most one
//! outbound report per episode.
//!
//! The reporter only decides and builds the report; actually transmitting it
//! is the caller's concern. Returning the message rather than writing to the
//! radio keeps the state machine total: the state advances even when a send
//! later fails, so an episode times out instead of retrying forever.

use vstd::prelude::*;

use crate::game_state::{PlayerNumber, TEAM_NUMBER};
use crate::messages::RefereeMessage;
use crate::world::{FilteredWhistle, Pose};

use rand::Rng;

verus! {

/// Where the reporter stands in the current episode.
#[derive(Clone, Copy, Debug, PartialEq, Eq, Structural)]
pub enum RefereePhase {
    /// No pending report.
    Idle,
    /// A whistle opened an episode at the carried time; nothing sent yet.
    WindowOpen { since: u64 },
    /// The report for the episode opened at the carried time is out.
    Sent { since: u64 },
}

/// Reporter timing, milliseconds.
#[derive(Clone, Copy, Debug, PartialEq, Eq, Structural)]
pub struct RefereeConfiguration {
    /// How long one reporting episode lasts before it is forgotten.
    pub report_window_duration: u64,
    /// How long after the whistle the report goes out. Must fit inside the
    /// window for the report to fire at all.
    pub send_delay: u64,
}

pub struct CreationContext {
    pub player_number: PlayerNumber,
}

/// The per-cycle inputs of the reporter.
pub struct CycleContext {
    pub filtered_whistle: FilteredWhistle,
    /// Monotonic cycle timestamp, milliseconds.
    pub cycle_start_time: u64,
    pub player_number: PlayerNumber,
    /// Localization result, if any; the report falls back to the identity
    /// pose without one.
    pub robot_to_field: Option<Pose>,
    pub configuration: RefereeConfiguration,
}

/// The reporter's persistent state.
pub struct Referee {
    pub phase: RefereePhase,
}

/// Episodes older than the window are forgotten, sent or not. A clock that
/// runs backwards skips the timeout check for the cycle.
pub open spec fn spec_phase_after_timeout(
    phase: RefereePhase,
    now: u64,
    window: u64,
) -> RefereePhase {
    match phase {
        RefereePhase::Idle => RefereePhase::Idle,
        RefereePhase::WindowOpen { since } => if now >= since && now - since > window {
            RefereePhase::Idle
        } else {
            phase
        },
        RefereePhase::Sent { since } => if now >= since && now - since > window {
            RefereePhase::Idle
        } else {
            phase
        },
    }
}

/// A fresh whistle edge opens a new episode, but only from idle: edges
/// during a running episode are part of the same whistle event.
pub open spec fn spec_phase_after_edge(
    phase: RefereePhase,
    started_this_cycle: bool,
    now: u64,
) -> RefereePhase {
    match phase {
        RefereePhase::Idle => if started_this_cycle {
            RefereePhase::WindowOpen { since: now }
        } else {
            RefereePhase::Idle
        },
        _ => phase,
    }
}

/// The report goes out once the configured delay after the whistle has
/// passed and nothing was sent for this episode yet.
pub open spec fn spec_should_send(phase: RefereePhase, now: u64, send_delay: u64) -> bool {
    phase matches RefereePhase::WindowOpen { since } && now >= since && now - since >= send_delay
}

/// The intermediate phase after the timeout and edge steps, before the
/// transmit decision.
pub open spec fn spec_phase_mid(
    phase: RefereePhase,
    whistle: FilteredWhistle,
    now: u64,
    configuration: RefereeConfiguration,
) -> RefereePhase {
    spec_phase_after_edge(
        spec_phase_after_timeout(phase, now, configuration.report_window_duration),
        whistle.started_this_cycle,
        now,
    )
}

/// Whether the cycle transmits.
pub open spec fn spec_emits(
    phase: RefereePhase,
    whistle: FilteredWhistle,
    now: u64,
    configuration: RefereeConfiguration,
) -> bool {
    spec_should_send(spec_phase_mid(phase, whistle, now, configuration), now, configuration.send_delay)
}

/// The phase at the end of the cycle.
pub open spec fn spec_phase_after_cycle(
    phase: RefereePhase,
    whistle: FilteredWhistle,
    now: u64,
    configuration: RefereeConfiguration,
) -> RefereePhase {
    let mid = spec_phase_mid(phase, whistle, now, configuration);
    if spec_should_send(mid, now, configuration.send_delay) {
        RefereePhase::Sent { since: mid->WindowOpen_since }
    } else {
        mid
    }
}

/// Law: at most one report per episode. While a report is out and the
/// episode has not yet timed out, no cycle transmits again and the phase
/// stays put, whatever the whistle flags say — so by induction no chain of
/// cycles inside the window transmits a second time.
pub proof fn lemma_at_most_once_per_episode(
    since: u64,
    whistle: FilteredWhistle,
    now: u64,
    configuration: RefereeConfiguration,
)
    requires
        since <= now,
        now - since <= configuration.report_window_duration,
    ensures
        !spec_emits(RefereePhase::Sent { since }, whistle, now, configuration),
        spec_phase_after_cycle(RefereePhase::Sent { since }, whistle, now, configuration) == (
        RefereePhase::Sent { since }),
{
}

/// Law: a transmission closes its episode. The cycle that emits ends in the
/// sent phase of the same episode, so only a timeout (and a fresh whistle)
/// can lead to another transmission.
pub proof fn lemma_emission_closes_episode(
    phase: RefereePhase,
    whistle: FilteredWhistle,
    now: u64,
    configuration: RefereeConfiguration,
)
    requires
        spec_emits(phase, whistle, now, configuration),
    ensures
        spec_phase_after_cycle(phase, whistle, now, configuration) matches RefereePhase::Sent {
            since,
        } && since <= now,
{
}

/// Relies on `rand::thread_rng` and `rand::Rng::gen_range`: a drawn sample
/// always lies within the given non-empty inclusive range.
#[verifier::external_body]
fn draw_hand_signal() -> (r: u8)
    ensures
        1 <= r <= 16,
{
    rand::thread_rng().gen_range(1..=16)
}

/// Build the outbound referee report.
fn make_referee_message(context: &CycleContext, handsignal: u8, elapsed: u64) -> (m: RefereeMessage)
    ensures
        m.header@ == seq![82u8, 71u8, 114u8, 116u8],
        m.version == 255,
        m.player_num == context.player_number.spec_number(),
        m.team_num == TEAM_NUMBER,
        m.fallen == handsignal,
        m.pose@ == (match context.robot_to_field {
            Some(pose) => seq![pose.x, pose.y, pose.theta],
            None => seq![0i64, 0i64, 0i64],
        }),
        m.ball_age == elapsed,
        m.ball@ == seq![0i64, 0i64],
{
    let pose: [i64; 3] = match context.robot_to_field {
        Some(pose) => [pose.x, pose.y, pose.theta],
        None => [0, 0, 0],
    };
    let m = RefereeMessage::new(
        [82, 71, 114, 116],
        255,
        context.player_number.number(),
        TEAM_NUMBER,
        handsignal,
        pose,
        elapsed,
        [0, 0],
    );
    proof {
        assert(m.header@ =~= seq![82u8, 71u8, 114u8, 116u8]);
        assert(m.ball@ =~= seq![0i64, 0i64]);
        match context.robot_to_field {
            Some(p) => {
                assert(m.pose@ =~= seq![p.x, p.y, p.theta]);
            },
            None => {
                assert(m.pose@ =~= seq![0i64, 0i64, 0i64]);
            },
        }
    }
    m
}

impl Referee {
    pub fn new(_context: CreationContext) -> (r: Self)
        ensures
            r.phase == RefereePhase::Idle,
    {
        Referee { phase: RefereePhase::Idle }
    }

    /// One control tick: age out a stale episode, open a new one on a fresh
    /// whistle edge, and transmit once per episode. The returned message, if
    /// any, is handed to the radio sink by the caller; its hand-signal
    /// classification is provisional (a draw), its pose is the localization
    /// result or the identity, and its age is the time since the whistle.
    pub fn cycle(&mut self, context: &CycleContext) -> (message: Option<RefereeMessage>)
        ensures
            final(self).phase == spec_phase_after_cycle(
                old(self).phase,
                context.filtered_whistle,
                context.cycle_start_time,
                context.configuration,
            ),
            message is Some == spec_emits(
                old(self).phase,
                context.filtered_whistle,
                context.cycle_start_time,
                context.configuration,
            ),
            message matches Some(m) ==> ({
                let mid = spec_phase_mid(
                    old(self).phase,
                    context.filtered_whistle,
                    context.cycle_start_time,
                    context.configuration,
                );
                &&& m.header@ == seq![82u8, 71u8, 114u8, 116u8]
                &&& m.version == 255
                &&& m.player_num == context.player_number.spec_number()
                &&& m.team_num == TEAM_NUMBER
                &&& 1 <= m.fallen <= 16
                &&& m.pose@ == (match context.robot_to_field {
                    Some(pose) => seq![pose.x, pose.y, pose.theta],
                    None => seq![0i64, 0i64, 0i64],
                })
                &&& m.ball_age == context.cycle_start_time - mid->WindowOpen_since
                &&& m.ball@ == seq![0i64, 0i64]
            }),
    {
        let now = context.cycle_start_time;
        let window = context.configuration.report_window_duration;

        match self.phase {
            RefereePhase::Idle => {},
            RefereePhase::WindowOpen { since } | RefereePhase::Sent { since } => {
                if now >= since && now - since > window {
                    self.phase = RefereePhase::Idle;
                }
            },
        }

        if matches!(self.phase, RefereePhase::Idle) && context.filtered_whistle.started_this_cycle {
            self.phase = RefereePhase::WindowOpen { since: now };
        }

        if let RefereePhase::WindowOpen { since } = self.phase {
            if now >= since && now - since >= context.configuration.send_delay {
                let handsignal = draw_hand_signal();
                let message = make_referee_message(context, handsignal, now - since);
                self.phase = RefereePhase::Sent { since };
                return Some(message);
            }
        }

        None
    }
}

} // verus!
