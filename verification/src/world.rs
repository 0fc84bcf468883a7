//! The per-cycle world snapshot the decision core consumes, and the filtered
//! game-controller state derived from the message history.
//!
//! All geometry is kept in field coordinates with integer millimetres: the
//! origin is the centre of the field, the positive x axis points towards the
//! opponent goal and the positive y axis to the left. Orientation angles are
//! integer milliradians. All timestamps are integer milliseconds on the
//! control loop's monotonic clock.

use vstd::prelude::*;

use crate::game_state::{GamePhase, GameState, Penalty, Players, SubState, Team};

verus! {

/// Largest coordinate magnitude (in millimetres) a well-formed snapshot may
/// carry; generous enough for any physical field, and small enough that all
/// position arithmetic in the tactic evaluators stays far from overflow.
pub const MAX_COORDINATE: i64 = 100_000;

/// The robot's game-lifecycle phase; exactly one per cycle.
#[derive(Clone, Copy, Debug, PartialEq, Eq, Structural)]
pub enum PrimaryState {
    Unstiff,
    Initial,
    Ready,
    Setup,
    Playing,
    Penalized,
    Finished,
    Calibration,
}

/// The tactical assignment given to this robot for the current phase of play.
#[derive(Clone, Copy, Debug, PartialEq, Eq, Structural)]
pub enum Role {
    DefenderLeft,
    DefenderRight,
    Keeper,
    Loser,
    MidfielderLeft,
    MidfielderRight,
    ReplacementKeeper,
    Searcher,
    Striker,
    StrikerSupporter,
}

#[derive(Clone, Copy, Debug, PartialEq, Eq, Structural)]
pub enum Side {
    Left,
    Right,
}

impl Side {
    pub open spec fn spec_opposite(self) -> Side {
        match self {
            Side::Left => Side::Right,
            Side::Right => Side::Left,
        }
    }

    pub fn opposite(&self) -> (r: Side)
        ensures
            r == self.spec_opposite(),
    {
        match self {
            Side::Left => Side::Right,
            Side::Right => Side::Left,
        }
    }
}

#[derive(Clone, Copy, Debug, PartialEq, Eq, Structural)]
pub enum FallState {
    Upright,
    Falling,
    Fallen,
}

/// The game state after filtering raw game-controller broadcasts against
/// whistle evidence.
#[derive(Clone, Copy, Debug, PartialEq, Eq, Structural)]
pub enum FilteredGameState {
    Initial,
    Ready { kicking_team: Team },
    Setup,
    Playing { ball_is_free: bool },
    Finished,
}

/// Output of the whistle detection over the current cycle.
#[derive(Clone, Copy, Debug, PartialEq, Eq, Structural)]
pub struct FilteredWhistle {
    /// A whistle is currently being detected.
    pub is_detected: bool,
    /// The detection began on this very cycle (rising edge).
    pub started_this_cycle: bool,
}

/// A point in field coordinates, integer millimetres.
#[derive(Clone, Copy, Debug, PartialEq, Eq, Structural)]
pub struct FieldPoint {
    pub x: i64,
    pub y: i64,
}

impl FieldPoint {
    pub open spec fn wf(self) -> bool {
        &&& -MAX_COORDINATE <= self.x <= MAX_COORDINATE
        &&& -MAX_COORDINATE <= self.y <= MAX_COORDINATE
    }
}

/// The robot's pose on the field: position in millimetres, orientation in
/// milliradians.
#[derive(Clone, Copy, Debug, PartialEq, Eq, Structural)]
pub struct Pose {
    pub x: i64,
    pub y: i64,
    pub theta: i64,
}

impl Pose {
    /// The identity pose at the centre of the field.
    pub fn identity() -> (p: Pose)
        ensures
            p == (Pose { x: 0, y: 0, theta: 0 }),
    {
        Pose { x: 0, y: 0, theta: 0 }
    }
}

/// Field geometry, integer millimetres.
#[derive(Clone, Copy, Debug, PartialEq, Eq, Structural)]
pub struct FieldDimensions {
    pub length: i64,
    pub width: i64,
    /// Distance from the goal line to the penalty marker.
    pub penalty_marker_distance: i64,
}

impl FieldDimensions {
    pub open spec fn wf(self) -> bool {
        &&& 0 < self.length <= MAX_COORDINATE
        &&& 0 < self.width <= MAX_COORDINATE
        &&& 0 <= self.penalty_marker_distance <= self.length
    }
}

/// The fused ball estimate, in field coordinates.
#[derive(Clone, Copy, Debug, PartialEq, Eq, Structural)]
pub struct BallState {
    /// Ball position on the field.
    pub ball_in_field: FieldPoint,
    /// Which half of the field (left or right of the x axis) the ball is on.
    pub field_side: Side,
}

impl BallState {
    pub open spec fn wf(self) -> bool {
        self.ball_in_field.wf()
    }
}

/// The robot-centric slice of the snapshot.
#[derive(Clone, Copy, Debug, PartialEq, Eq, Structural)]
pub struct RobotState {
    pub primary_state: PrimaryState,
    pub role: Role,
    pub fall_state: FallState,
    /// Localization result; absent whenever the robot is delocalized.
    pub robot_to_field: Option<Pose>,
}

/// Game-controller state filtered over the message history.
#[derive(Clone, Copy, Debug)]
pub struct GameControllerState {
    pub game_state: GameState,
    pub game_phase: GamePhase,
    pub kicking_team: Team,
    /// When the filtered game state last changed, milliseconds.
    pub last_game_state_change: u64,
    pub penalties: Players<Penalty>,
    pub remaining_amount_of_messages: u16,
    pub sub_state: Option<SubState>,
}

/// The read-only world snapshot consumed once per cycle.
#[derive(Clone, Copy, Debug)]
pub struct WorldState {
    pub ball: Option<BallState>,
    pub robot: RobotState,
    pub filtered_game_state: Option<FilteredGameState>,
    pub game_controller_state: Option<GameControllerState>,
}

impl WorldState {
    /// The invariants every snapshot handed to the core satisfies: primary
    /// state and role are always present (they are plain fields here), and
    /// whatever geometry is present is bounded.
    pub open spec fn wf(self) -> bool {
        self.ball matches Some(b) ==> b.wf()
    }
}

} // verus!
