//! The scheduler node: owns the persistent scheduler state and drives the
//! prioritized candidate list once per cycle.
//!
//! Each cycle it updates its activity timers and the referee-signal window,
//! builds the ordered candidate list, evaluates candidates in order, and
//! commits to the first one that yields a motion command; should no
//! candidate be applicable (a delocalized robot in open play), it commits
//! to standing still. The contract of [`Behavior::cycle`] pins the whole
//! decision down to the spec-level model in this module, and the public
//! lemmas state the scheduling laws: when the scheduler's inputs cover it,
//! the candidate list contains an applicable action; the first applicable
//! candidate wins; the referee-signal window stays open for exactly the
//! configured tolerance; caching the team scores is idempotent; and a
//! keeper facing a penalty shootout never defends the goal.

use vstd::prelude::*;

use crate::behavior::{
    calibrate, defend, detect_ref_signal, dribble, fall_safely, initial, jump, look_around,
    lost_ball, penalize, prepare_jump, search, sit_down, stand, stand_up, support, unstiff,
    walk_to_kick_off, walk_to_penalty_kick,
};
use crate::game_state::{GameControllerStateMessage, GamePhase, GameState, SubState, Team};
use crate::messages::IncomingMessage;
use crate::motion::{Action, HeadMotion, MotionCommand};
use crate::world::{
    FieldDimensions, FieldPoint, FilteredGameState, FilteredWhistle, GameControllerState,
    PrimaryState, Role, Side, WorldState, MAX_COORDINATE,
};

verus! {

/// Which sideline the visual referee stands on.
#[derive(Clone, Copy, Debug, PartialEq, Eq, Structural)]
pub enum VisRefFieldSide {
    Left,
    Right,
}

/// Per-role geometric thresholds for the supporting tactics, integer
/// millimetres.
#[derive(Clone, Copy, Debug, PartialEq, Eq, Structural)]
pub struct RolePositions {
    pub left_midfielder_distance_to_ball: i64,
    pub left_midfielder_maximum_x_in_ready_and_when_ball_is_not_free: i64,
    pub left_midfielder_minimum_x: i64,
    pub right_midfielder_distance_to_ball: i64,
    pub right_midfielder_maximum_x_in_ready_and_when_ball_is_not_free: i64,
    pub right_midfielder_minimum_x: i64,
    pub striker_supporter_distance_to_ball: i64,
    pub striker_supporter_maximum_x_in_ready_and_when_ball_is_not_free: i64,
    pub striker_supporter_minimum_x: i64,
}

impl RolePositions {
    pub open spec fn wf(self) -> bool {
        &&& 0 <= self.left_midfielder_distance_to_ball <= MAX_COORDINATE
        &&& -MAX_COORDINATE <= self.left_midfielder_maximum_x_in_ready_and_when_ball_is_not_free
            <= MAX_COORDINATE
        &&& -MAX_COORDINATE <= self.left_midfielder_minimum_x <= MAX_COORDINATE
        &&& 0 <= self.right_midfielder_distance_to_ball <= MAX_COORDINATE
        &&& -MAX_COORDINATE <= self.right_midfielder_maximum_x_in_ready_and_when_ball_is_not_free
            <= MAX_COORDINATE
        &&& -MAX_COORDINATE <= self.right_midfielder_minimum_x <= MAX_COORDINATE
        &&& 0 <= self.striker_supporter_distance_to_ball <= MAX_COORDINATE
        &&& -MAX_COORDINATE <= self.striker_supporter_maximum_x_in_ready_and_when_ball_is_not_free
            <= MAX_COORDINATE
        &&& -MAX_COORDINATE <= self.striker_supporter_minimum_x <= MAX_COORDINATE
    }
}

/// The configuration surface of the scheduler. Durations are milliseconds.
#[derive(Clone, Copy, Debug, PartialEq, Eq, Structural)]
pub struct BehaviorConfiguration {
    /// Escape hatch for tests and simulation: when present, the scheduler
    /// returns this command untouched and does nothing else.
    pub injected_motion_command: Option<MotionCommand>,
    /// How long after becoming active the robot keeps looking around.
    pub initial_lookaround_duration: u64,
    /// How long the referee-signal window stays open once a whistle or a
    /// score change has opened it.
    pub ref_signal_tolerance_duration: u64,
    pub role_positions: RolePositions,
}

impl BehaviorConfiguration {
    pub open spec fn wf(self) -> bool {
        self.role_positions.wf()
    }
}

pub struct CreationContext {
    pub behavior: BehaviorConfiguration,
    pub field_dimensions: FieldDimensions,
}

/// The per-cycle inputs of the scheduler.
pub struct CycleContext {
    pub world_state: WorldState,
    /// Monotonic cycle timestamp, milliseconds.
    pub cycle_start_time: u64,
    pub filtered_whistle: FilteredWhistle,
    /// The decoded incoming radio messages of this cycle's slice, oldest
    /// first.
    pub network_messages: Vec<IncomingMessage>,
    pub configuration: BehaviorConfiguration,
    pub field_dimensions: FieldDimensions,
}

impl CycleContext {
    pub open spec fn wf(self) -> bool {
        &&& self.world_state.wf()
        &&& self.configuration.wf()
        &&& self.field_dimensions.wf()
    }
}

/// What one cycle publishes: the committed motion command and, as telemetry,
/// the action that produced it (absent when an injected override bypassed
/// scheduling).
pub struct MainOutputs {
    pub motion_command: MotionCommand,
    pub active_action: Option<Action>,
}

/// The scheduler's persistent state, owned by the control loop for the
/// process lifetime.
pub struct Behavior {
    /// The command committed last cycle, kept for collaborators that need
    /// hysteresis.
    pub last_motion_command: MotionCommand,
    /// Where the ball was last seen, for the lost-ball search.
    pub absolute_last_known_ball_position: FieldPoint,
    /// When the robot last entered an active phase; cleared on leaving it.
    pub active_since: Option<u64>,
    /// When the referee-signal window opened; cleared when it times out.
    pub active_since_visref: Option<u64>,
    /// Scores seen in the latest game-controller message, cached to detect
    /// score changes.
    pub last_team_score: u8,
    pub last_opponent_score: u8,
}

/// How the "active since" timer advances: set on entering Ready or Playing
/// from an inactive state, kept through Ready, Set and Playing, cleared on
/// leaving them.
pub open spec fn spec_updated_active_since(
    previous: Option<u64>,
    primary_state: PrimaryState,
    now: u64,
) -> Option<u64> {
    match previous {
        None => match primary_state {
            PrimaryState::Ready | PrimaryState::Playing => Some(now),
            _ => None,
        },
        Some(since) => match primary_state {
            PrimaryState::Ready | PrimaryState::Setup | PrimaryState::Playing => Some(since),
            _ => None,
        },
    }
}

/// The first game-controller message of the cycle's slice.
pub open spec fn spec_first_game_controller_message(
    messages: Seq<IncomingMessage>,
) -> Option<GameControllerStateMessage>
    decreases messages.len(),
{
    if messages.len() == 0 {
        None
    } else {
        match messages[0] {
            IncomingMessage::GameController(message) => Some(message),
            IncomingMessage::Spl(_) => spec_first_game_controller_message(messages.drop_first()),
        }
    }
}

/// A referee-signal window opens on a fresh whistle edge or on a score
/// change against the cached scores.
pub open spec fn spec_window_opens(
    whistle: FilteredWhistle,
    message: Option<GameControllerStateMessage>,
    last_team_score: u8,
    last_opponent_score: u8,
) -> bool {
    ||| whistle.started_this_cycle
    ||| (match message {
        Some(m) => m.hulks_team.score != last_team_score || m.opponent_team.score
            != last_opponent_score,
        None => false,
    })
}

/// How the referee-signal window advances: an inactive window opens when an
/// opening event arrives; an active one closes once it is older than the
/// tolerance. A clock that runs backwards (now before the opening time)
/// skips the timeout check for the cycle.
pub open spec fn spec_ref_signal_window_after(
    previous: Option<u64>,
    opens: bool,
    now: u64,
    tolerance: u64,
) -> Option<u64> {
    match previous {
        None => if opens {
            Some(now)
        } else {
            None
        },
        Some(since) => if now >= since && now - since > tolerance {
            None
        } else {
            Some(since)
        },
    }
}

/// DetectRefSignal is a candidate exactly on the cycles where the window is
/// active after the update.
pub open spec fn spec_ref_signal_enqueued(
    previous: Option<u64>,
    opens: bool,
    now: u64,
    tolerance: u64,
) -> bool {
    spec_ref_signal_window_after(previous, opens, now, tolerance) is Some
}

/// The score cache after the cycle: the scores of the observed message, or
/// unchanged when none arrived.
pub open spec fn spec_scores_after(
    message: Option<GameControllerStateMessage>,
    last_team_score: u8,
    last_opponent_score: u8,
) -> (u8, u8) {
    match message {
        Some(m) => (m.hulks_team.score, m.opponent_team.score),
        None => (last_team_score, last_opponent_score),
    }
}

/// LookAround is a candidate while the robot has been active for less than
/// the configured duration.
pub open spec fn spec_look_around_enqueued(
    active_since: Option<u64>,
    now: u64,
    duration: u64,
) -> bool {
    match active_since {
        Some(since) => now >= since && now - since < duration,
        None => false,
    }
}

/// The striker's choice while our team prepares a kickoff or penalty kick.
pub open spec fn spec_striker_kickoff_actions(
    game_controller_state: Option<GameControllerState>,
) -> Seq<Action> {
    match game_controller_state {
        Some(state) => if state.sub_state == Some(SubState::PenaltyKick) {
            seq![Action::WalkToPenaltyKick]
        } else {
            seq![Action::WalkToKickOff]
        },
        None => seq![Action::WalkToKickOff],
    }
}

/// The striker's choice while the opponent has the ball.
pub open spec fn spec_striker_defend_actions(
    game_controller_state: Option<GameControllerState>,
) -> Seq<Action> {
    match game_controller_state {
        Some(state) => if state.game_state == GameState::Ready && state.sub_state == Some(
            SubState::PenaltyKick,
        ) && state.kicking_team == Team::Opponent {
            seq![Action::DefendPenaltyKick]
        } else {
            seq![Action::DefendKickOff]
        },
        None => seq![Action::DefendKickOff],
    }
}

/// The total mapping from the assigned role to its tactic (or tactic pair).
pub open spec fn spec_role_actions(
    role: Role,
    game_controller_state: Option<GameControllerState>,
    filtered_game_state: Option<FilteredGameState>,
) -> Seq<Action> {
    match role {
        Role::DefenderLeft => seq![Action::DefendLeft],
        Role::DefenderRight => seq![Action::DefendRight],
        Role::Keeper => match game_controller_state {
            Some(state) => match state.game_phase {
                GamePhase::PenaltyShootout { .. } => seq![Action::Jump, Action::PrepareJump],
                _ => seq![Action::DefendGoal],
            },
            None => seq![Action::DefendGoal],
        },
        Role::Loser => seq![Action::SearchForLostBall],
        Role::MidfielderLeft => seq![Action::SupportLeft],
        Role::MidfielderRight => seq![Action::SupportRight],
        Role::ReplacementKeeper => seq![Action::DefendGoal],
        Role::Searcher => seq![Action::Search],
        Role::Striker => match filtered_game_state {
            None => seq![Action::Dribble],
            Some(filtered) => match filtered {
                FilteredGameState::Playing { ball_is_free } => if ball_is_free {
                    seq![Action::Dribble]
                } else {
                    spec_striker_defend_actions(game_controller_state)
                },
                FilteredGameState::Ready { kicking_team } => if kicking_team == Team::Hulks {
                    spec_striker_kickoff_actions(game_controller_state)
                } else {
                    spec_striker_defend_actions(game_controller_state)
                },
                _ => spec_striker_defend_actions(game_controller_state),
            },
        },
        Role::StrikerSupporter => seq![Action::SupportStriker],
    }
}

/// The fixed safety and administrative prefix, highest priority first.
pub open spec fn spec_fixed_actions() -> Seq<Action> {
    seq![
        Action::Unstiff,
        Action::SitDown,
        Action::Penalize,
        Action::Initial,
        Action::FallSafely,
        Action::StandUp,
        Action::Stand,
        Action::Calibrate,
    ]
}

/// The ordered candidate list of one cycle, highest priority first.
pub open spec fn spec_candidate_actions(
    ref_signal_enqueued: bool,
    look_around_enqueued: bool,
    world_state: WorldState,
) -> Seq<Action> {
    spec_fixed_actions() + (if ref_signal_enqueued {
        seq![Action::DetectRefSignal]
    } else {
        Seq::empty()
    }) + (if look_around_enqueued {
        seq![Action::LookAround]
    } else {
        Seq::empty()
    }) + spec_role_actions(
        world_state.robot.role,
        world_state.game_controller_state,
        world_state.filtered_game_state,
    )
}

/// What one candidate evaluates to: the spec-level mirror of the evaluator
/// catalog.
pub open spec fn spec_evaluate(
    action: Action,
    world_state: WorldState,
    field_dimensions: FieldDimensions,
    configuration: BehaviorConfiguration,
    absolute_last_known_ball_position: FieldPoint,
) -> Option<MotionCommand> {
    let positions = configuration.role_positions;
    match action {
        Action::Unstiff => unstiff::spec_execute(world_state),
        Action::SitDown => sit_down::spec_execute(world_state),
        Action::Penalize => penalize::spec_execute(world_state),
        Action::Initial => initial::spec_execute(world_state),
        Action::FallSafely => fall_safely::spec_execute(world_state),
        Action::StandUp => stand_up::spec_execute(world_state),
        Action::Stand => stand::spec_execute(world_state),
        Action::Calibrate => calibrate::spec_execute(world_state),
        Action::DetectRefSignal => detect_ref_signal::spec_execute(
            world_state,
            field_dimensions,
            VisRefFieldSide::Right,
        ),
        Action::LookAround => look_around::spec_execute(world_state),
        Action::DefendGoal => defend::spec_walk_to_post(
            world_state,
            defend::spec_goal_post(field_dimensions),
        ),
        Action::DefendKickOff => defend::spec_walk_to_post(
            world_state,
            defend::spec_kick_off_post(field_dimensions),
        ),
        Action::DefendLeft => defend::spec_walk_to_post(
            world_state,
            defend::spec_left_post(field_dimensions),
        ),
        Action::DefendRight => defend::spec_walk_to_post(
            world_state,
            defend::spec_right_post(field_dimensions),
        ),
        Action::DefendPenaltyKick => defend::spec_walk_to_post(
            world_state,
            defend::spec_penalty_kick_post(field_dimensions),
        ),
        Action::Dribble => dribble::spec_execute(world_state),
        Action::Jump => jump::spec_execute(world_state),
        Action::PrepareJump => prepare_jump::spec_execute(world_state),
        Action::Search => search::spec_execute(world_state, field_dimensions),
        Action::SearchForLostBall => lost_ball::spec_execute(
            world_state,
            absolute_last_known_ball_position,
        ),
        Action::SupportLeft => support::spec_execute(
            world_state,
            field_dimensions,
            Some(Side::Left),
            positions.left_midfielder_distance_to_ball as int,
            positions.left_midfielder_maximum_x_in_ready_and_when_ball_is_not_free as int,
            positions.left_midfielder_minimum_x as int,
        ),
        Action::SupportRight => support::spec_execute(
            world_state,
            field_dimensions,
            Some(Side::Right),
            positions.right_midfielder_distance_to_ball as int,
            positions.right_midfielder_maximum_x_in_ready_and_when_ball_is_not_free as int,
            positions.right_midfielder_minimum_x as int,
        ),
        Action::SupportStriker => support::spec_execute(
            world_state,
            field_dimensions,
            None,
            positions.striker_supporter_distance_to_ball as int,
            positions.striker_supporter_maximum_x_in_ready_and_when_ball_is_not_free as int,
            positions.striker_supporter_minimum_x as int,
        ),
        Action::WalkToKickOff => walk_to_kick_off::spec_execute(world_state, field_dimensions),
        Action::WalkToPenaltyKick => walk_to_penalty_kick::spec_execute(
            world_state,
            field_dimensions,
        ),
    }
}

/// First-success-wins selection over the ordered candidate list.
pub open spec fn spec_select(
    actions: Seq<Action>,
    world_state: WorldState,
    field_dimensions: FieldDimensions,
    configuration: BehaviorConfiguration,
    absolute_last_known_ball_position: FieldPoint,
) -> Option<(Action, MotionCommand)>
    decreases actions.len(),
{
    if actions.len() == 0 {
        None
    } else {
        match spec_evaluate(
            actions[0],
            world_state,
            field_dimensions,
            configuration,
            absolute_last_known_ball_position,
        ) {
            Some(command) => Some((actions[0], command)),
            None => spec_select(
                actions.drop_first(),
                world_state,
                field_dimensions,
                configuration,
                absolute_last_known_ball_position,
            ),
        }
    }
}

/// If some candidate is applicable, selection succeeds.
pub proof fn lemma_select_is_some(
    actions: Seq<Action>,
    world_state: WorldState,
    field_dimensions: FieldDimensions,
    configuration: BehaviorConfiguration,
    absolute_last_known_ball_position: FieldPoint,
    i: int,
)
    requires
        0 <= i < actions.len(),
        spec_evaluate(
            actions[i],
            world_state,
            field_dimensions,
            configuration,
            absolute_last_known_ball_position,
        ) is Some,
    ensures
        spec_select(
            actions,
            world_state,
            field_dimensions,
            configuration,
            absolute_last_known_ball_position,
        ) is Some,
    decreases actions.len(),
{
    if spec_evaluate(
        actions[0],
        world_state,
        field_dimensions,
        configuration,
        absolute_last_known_ball_position,
    ) is Some {
    } else {
        lemma_select_is_some(
            actions.drop_first(),
            world_state,
            field_dimensions,
            configuration,
            absolute_last_known_ball_position,
            i - 1,
        );
    }
}

/// A candidate is the selection point when it is applicable and every
/// earlier candidate is not.
pub open spec fn spec_is_selected_at(
    actions: Seq<Action>,
    world_state: WorldState,
    field_dimensions: FieldDimensions,
    configuration: BehaviorConfiguration,
    absolute_last_known_ball_position: FieldPoint,
    k: int,
) -> bool {
    &&& 0 <= k < actions.len()
    &&& spec_evaluate(
        actions[k],
        world_state,
        field_dimensions,
        configuration,
        absolute_last_known_ball_position,
    ) is Some
    &&& forall|j: int|
        0 <= j < k ==> spec_evaluate(
            #[trigger] actions[j],
            world_state,
            field_dimensions,
            configuration,
            absolute_last_known_ball_position,
        ) is None
}

/// Law: the scheduler always selects the first applicable candidate. If two
/// or more candidates are simultaneously applicable, the one appearing
/// earlier in the priority order wins.
pub proof fn lemma_priority(
    actions: Seq<Action>,
    world_state: WorldState,
    field_dimensions: FieldDimensions,
    configuration: BehaviorConfiguration,
    absolute_last_known_ball_position: FieldPoint,
    k: int,
)
    requires
        spec_is_selected_at(
            actions,
            world_state,
            field_dimensions,
            configuration,
            absolute_last_known_ball_position,
            k,
        ),
    ensures
        spec_select(
            actions,
            world_state,
            field_dimensions,
            configuration,
            absolute_last_known_ball_position,
        ) == Some(
            (
                actions[k],
                spec_evaluate(
                    actions[k],
                    world_state,
                    field_dimensions,
                    configuration,
                    absolute_last_known_ball_position,
                ).unwrap(),
            ),
        ),
    decreases k,
{
    if k == 0 {
    } else {
        assert(spec_is_selected_at(
            actions.drop_first(),
            world_state,
            field_dimensions,
            configuration,
            absolute_last_known_ball_position,
            k - 1,
        ));
        lemma_priority(
            actions.drop_first(),
            world_state,
            field_dimensions,
            configuration,
            absolute_last_known_ball_position,
            k - 1,
        );
    }
}

/// Law: the hysteresis of the referee-signal window. Once opened, the
/// DetectRefSignal candidate stays enqueued for exactly the tolerance
/// duration and on no later cycle, whatever the whistle flags say; and the
/// opening time does not move while the window is active.
pub proof fn lemma_hysteresis_window(opened_at: u64, opens: bool, now: u64, tolerance: u64)
    requires
        opened_at <= now,
    ensures
        spec_ref_signal_enqueued(Some(opened_at), opens, now, tolerance) == (now - opened_at
            <= tolerance),
        now - opened_at <= tolerance ==> spec_ref_signal_window_after(
            Some(opened_at),
            opens,
            now,
            tolerance,
        ) == Some(opened_at),
{
}

/// Law: DetectRefSignal stands in the candidate list exactly on the cycles
/// where the referee-signal window is active; no other part of the list
/// ever contains it.
pub proof fn lemma_detect_ref_signal_candidacy(
    ref_signal_enqueued: bool,
    look_around_enqueued: bool,
    world_state: WorldState,
)
    ensures
        spec_candidate_actions(ref_signal_enqueued, look_around_enqueued, world_state).contains(
            Action::DetectRefSignal,
        ) == ref_signal_enqueued,
{
    let actions = spec_candidate_actions(ref_signal_enqueued, look_around_enqueued, world_state);
    let role_actions = spec_role_actions(
        world_state.robot.role,
        world_state.game_controller_state,
        world_state.filtered_game_state,
    );
    if ref_signal_enqueued {
        assert(actions[8] == Action::DetectRefSignal);
        assert(actions.contains(Action::DetectRefSignal));
    } else {
        assert forall|j: int|
            0 <= j < role_actions.len() implies #[trigger] role_actions[j]
            != Action::DetectRefSignal by {
            match world_state.robot.role {
                Role::Keeper => {},
                Role::Striker => {},
                _ => {},
            }
        }
        assert forall|i: int|
            0 <= i < actions.len() implies #[trigger] actions[i] != Action::DetectRefSignal by {
            if i >= actions.len() - role_actions.len() {
                assert(actions[i] == role_actions[i - (actions.len() - role_actions.len())]);
            }
        }
    }
}

/// Law: with the window closed, no whistle edge and no score change, the
/// candidate stays absent even while the whistle flag itself is still up.
pub proof fn lemma_window_needs_fresh_event(
    whistle: FilteredWhistle,
    message: Option<GameControllerStateMessage>,
    last_team_score: u8,
    last_opponent_score: u8,
    now: u64,
    tolerance: u64,
)
    requires
        !whistle.started_this_cycle,
        message matches Some(m) ==> m.hulks_team.score == last_team_score
            && m.opponent_team.score == last_opponent_score,
    ensures
        !spec_ref_signal_enqueued(
            None,
            spec_window_opens(whistle, message, last_team_score, last_opponent_score),
            now,
            tolerance,
        ),
{
}

/// Law: score caching is idempotent. After a cycle has cached the observed
/// scores, a following cycle that observes the same scores and no whistle
/// edge opens no new window.
pub proof fn lemma_score_cache_idempotent(
    whistle: FilteredWhistle,
    message: Option<GameControllerStateMessage>,
    last_team_score: u8,
    last_opponent_score: u8,
)
    requires
        !whistle.started_this_cycle,
    ensures
        ({
            let (team, opponent) = spec_scores_after(message, last_team_score, last_opponent_score);
            !spec_window_opens(whistle, message, team, opponent)
        }),
{
}

/// The filtered game states in which the striker's tactic is to dribble.
pub open spec fn spec_striker_dribbles(filtered_game_state: Option<FilteredGameState>) -> bool {
    match filtered_game_state {
        None => true,
        Some(filtered) => filtered matches FilteredGameState::Playing { ball_is_free }
            && ball_is_free,
    }
}

/// Law: total coverage. For every well-formed snapshot of a localized robot
/// the candidate list contains at least one applicable action — with the
/// one further proviso that a striker sent to dribble has a ball estimate.
/// On the excluded snapshots (no pose; a striker dribbling blind) nothing
/// in the list applies and the scheduler's safe standing fallback covers
/// the cycle, so the cycle never panics either way.
pub proof fn lemma_total_coverage(
    ref_signal_enqueued: bool,
    look_around_enqueued: bool,
    world_state: WorldState,
    field_dimensions: FieldDimensions,
    configuration: BehaviorConfiguration,
    absolute_last_known_ball_position: FieldPoint,
)
    requires
        world_state.wf(),
        field_dimensions.wf(),
        configuration.wf(),
        world_state.robot.robot_to_field is Some,
        world_state.robot.role == Role::Striker && spec_striker_dribbles(
            world_state.filtered_game_state,
        ) ==> world_state.ball is Some,
    ensures
        spec_select(
            spec_candidate_actions(ref_signal_enqueued, look_around_enqueued, world_state),
            world_state,
            field_dimensions,
            configuration,
            absolute_last_known_ball_position,
        ) is Some,
{
    let actions = spec_candidate_actions(ref_signal_enqueued, look_around_enqueued, world_state);
    let role_actions = spec_role_actions(
        world_state.robot.role,
        world_state.game_controller_state,
        world_state.filtered_game_state,
    );
    assert(role_actions.len() >= 1);
    match world_state.robot.primary_state {
        PrimaryState::Unstiff => {
            assert(actions[0] == Action::Unstiff);
            lemma_select_is_some(
                actions,
                world_state,
                field_dimensions,
                configuration,
                absolute_last_known_ball_position,
                0,
            );
        },
        PrimaryState::Finished => {
            assert(actions[1] == Action::SitDown);
            lemma_select_is_some(
                actions,
                world_state,
                field_dimensions,
                configuration,
                absolute_last_known_ball_position,
                1,
            );
        },
        PrimaryState::Penalized => {
            assert(actions[2] == Action::Penalize);
            lemma_select_is_some(
                actions,
                world_state,
                field_dimensions,
                configuration,
                absolute_last_known_ball_position,
                2,
            );
        },
        PrimaryState::Initial => {
            assert(actions[3] == Action::Initial);
            lemma_select_is_some(
                actions,
                world_state,
                field_dimensions,
                configuration,
                absolute_last_known_ball_position,
                3,
            );
        },
        PrimaryState::Setup => {
            assert(actions[6] == Action::Stand);
            lemma_select_is_some(
                actions,
                world_state,
                field_dimensions,
                configuration,
                absolute_last_known_ball_position,
                6,
            );
        },
        PrimaryState::Calibration => {
            assert(actions[7] == Action::Calibrate);
            lemma_select_is_some(
                actions,
                world_state,
                field_dimensions,
                configuration,
                absolute_last_known_ball_position,
                7,
            );
        },
        PrimaryState::Ready | PrimaryState::Playing => {
            let i = actions.len() - 1;
            assert(actions[i] == role_actions.last());
            assert(spec_evaluate(
                actions[i],
                world_state,
                field_dimensions,
                configuration,
                absolute_last_known_ball_position,
            ) is Some);
            lemma_select_is_some(
                actions,
                world_state,
                field_dimensions,
                configuration,
                absolute_last_known_ball_position,
                i,
            );
        },
    }
}

/// Law: a keeper facing a penalty shootout never defends the goal. With
/// play running and the robot upright, goal defence is not even in the
/// candidate list, and — unless the referee-signal or look-around window
/// rightly outranks the tactic — the selected action is the dive or its
/// preparation stance.
pub proof fn lemma_keeper_shootout(
    ref_signal_enqueued: bool,
    look_around_enqueued: bool,
    world_state: WorldState,
    field_dimensions: FieldDimensions,
    configuration: BehaviorConfiguration,
    absolute_last_known_ball_position: FieldPoint,
)
    requires
        world_state.robot.primary_state is Playing,
        world_state.robot.role == Role::Keeper,
        (world_state.game_controller_state matches Some(state) && state.game_phase
            matches GamePhase::PenaltyShootout { .. }),
        world_state.robot.fall_state is Upright,
    ensures
        !spec_candidate_actions(ref_signal_enqueued, look_around_enqueued, world_state).contains(
            Action::DefendGoal,
        ),
        !ref_signal_enqueued && !look_around_enqueued ==> (spec_select(
            spec_candidate_actions(false, false, world_state),
            world_state,
            field_dimensions,
            configuration,
            absolute_last_known_ball_position,
        ) matches Some(pair) && (pair.0 == Action::Jump || pair.0 == Action::PrepareJump)),
{
    let actions = spec_candidate_actions(ref_signal_enqueued, look_around_enqueued, world_state);
    let role_actions = spec_role_actions(
        world_state.robot.role,
        world_state.game_controller_state,
        world_state.filtered_game_state,
    );
    assert(role_actions == seq![Action::Jump, Action::PrepareJump]);
    assert forall|i: int|
        0 <= i < actions.len() implies #[trigger] actions[i] != Action::DefendGoal by {
        if i >= actions.len() - 2 {
            assert(actions[i] == role_actions[i - (actions.len() - 2)]);
        }
    }
    if !ref_signal_enqueued && !look_around_enqueued {
        let closed = spec_candidate_actions(false, false, world_state);
        assert(closed[8] == Action::Jump);
        assert(closed[9] == Action::PrepareJump);
        if world_state.ball is Some {
            assert(spec_is_selected_at(
                closed,
                world_state,
                field_dimensions,
                configuration,
                absolute_last_known_ball_position,
                8,
            ));
            lemma_priority(
                closed,
                world_state,
                field_dimensions,
                configuration,
                absolute_last_known_ball_position,
                8,
            );
        } else {
            assert(spec_is_selected_at(
                closed,
                world_state,
                field_dimensions,
                configuration,
                absolute_last_known_ball_position,
                9,
            ));
            lemma_priority(
                closed,
                world_state,
                field_dimensions,
                configuration,
                absolute_last_known_ball_position,
                9,
            );
        }
    }
}

/// The first game-controller message of the slice, if any.
fn first_game_controller_message(messages: &Vec<IncomingMessage>) -> (r: Option<
    &GameControllerStateMessage,
>)
    ensures
        match r {
            Some(m) => spec_first_game_controller_message(messages@) == Some(*m),
            None => spec_first_game_controller_message(messages@) is None,
        },
{
    let mut i: usize = 0;
    assert(messages@.skip(0) =~= messages@);
    while i < messages.len()
        invariant
            i <= messages@.len(),
            spec_first_game_controller_message(messages@) == spec_first_game_controller_message(
                messages@.skip(i as int),
            ),
        decreases messages@.len() - i,
    {
        assert(messages@.skip(i as int)[0] == messages@[i as int]);
        match &messages[i] {
            IncomingMessage::GameController(message) => {
                return Some(message);
            },
            IncomingMessage::Spl(_) => {},
        }
        assert(messages@.skip(i as int).drop_first() =~= messages@.skip(i as int + 1));
        i += 1;
    }
    assert(messages@.skip(messages@.len() as int) =~= Seq::<IncomingMessage>::empty());
    None
}

/// Build the ordered candidate list of this cycle.
fn collect_candidate_actions(
    ref_signal_enqueued: bool,
    look_around_enqueued: bool,
    world_state: &WorldState,
) -> (r: Vec<Action>)
    ensures
        r@ == spec_candidate_actions(ref_signal_enqueued, look_around_enqueued, *world_state),
{
    let mut actions: Vec<Action> = Vec::new();
    actions.push(Action::Unstiff);
    actions.push(Action::SitDown);
    actions.push(Action::Penalize);
    actions.push(Action::Initial);
    actions.push(Action::FallSafely);
    actions.push(Action::StandUp);
    actions.push(Action::Stand);
    actions.push(Action::Calibrate);
    if ref_signal_enqueued {
        actions.push(Action::DetectRefSignal);
    }
    if look_around_enqueued {
        actions.push(Action::LookAround);
    }
    match world_state.robot.role {
        Role::DefenderLeft => actions.push(Action::DefendLeft),
        Role::DefenderRight => actions.push(Action::DefendRight),
        Role::Keeper => match &world_state.game_controller_state {
            Some(state) => match state.game_phase {
                GamePhase::PenaltyShootout { .. } => {
                    actions.push(Action::Jump);
                    actions.push(Action::PrepareJump);
                },
                _ => actions.push(Action::DefendGoal),
            },
            None => actions.push(Action::DefendGoal),
        },
        Role::Loser => actions.push(Action::SearchForLostBall),
        Role::MidfielderLeft => actions.push(Action::SupportLeft),
        Role::MidfielderRight => actions.push(Action::SupportRight),
        Role::ReplacementKeeper => actions.push(Action::DefendGoal),
        Role::Searcher => actions.push(Action::Search),
        Role::Striker => match world_state.filtered_game_state {
            None => actions.push(Action::Dribble),
            Some(FilteredGameState::Playing { ball_is_free: true }) => actions.push(
                Action::Dribble,
            ),
            Some(FilteredGameState::Ready { kicking_team: Team::Hulks }) => {
                match &world_state.game_controller_state {
                    Some(state) => if matches!(state.sub_state, Some(SubState::PenaltyKick)) {
                        actions.push(Action::WalkToPenaltyKick);
                    } else {
                        actions.push(Action::WalkToKickOff);
                    },
                    None => actions.push(Action::WalkToKickOff),
                }
            },
            _ => {
                match &world_state.game_controller_state {
                    Some(state) => if matches!(state.game_state, GameState::Ready) && matches!(
                        state.sub_state,
                        Some(SubState::PenaltyKick),
                    ) && matches!(state.kicking_team, Team::Opponent) {
                        actions.push(Action::DefendPenaltyKick);
                    } else {
                        actions.push(Action::DefendKickOff);
                    },
                    None => actions.push(Action::DefendKickOff),
                }
            },
        },
        Role::StrikerSupporter => actions.push(Action::SupportStriker),
    }
    proof {
        assert(actions@ =~= spec_candidate_actions(
            ref_signal_enqueued,
            look_around_enqueued,
            *world_state,
        ));
    }
    actions
}

/// Evaluate one candidate: the exec dispatcher over the evaluator catalog.
fn evaluate(
    action: Action,
    context: &CycleContext,
    absolute_last_known_ball_position: FieldPoint,
) -> (r: Option<MotionCommand>)
    requires
        context.wf(),
    ensures
        r == spec_evaluate(
            action,
            context.world_state,
            context.field_dimensions,
            context.configuration,
            absolute_last_known_ball_position,
        ),
{
    let world_state = &context.world_state;
    let field_dimensions = &context.field_dimensions;
    let positions = &context.configuration.role_positions;
    match action {
        Action::Unstiff => unstiff::execute(world_state),
        Action::SitDown => sit_down::execute(world_state),
        Action::Penalize => penalize::execute(world_state),
        Action::Initial => initial::execute(world_state),
        Action::FallSafely => fall_safely::execute(world_state),
        Action::StandUp => stand_up::execute(world_state),
        Action::Stand => stand::execute(world_state),
        Action::Calibrate => calibrate::execute(world_state),
        Action::DetectRefSignal => detect_ref_signal::execute(
            world_state,
            field_dimensions,
            VisRefFieldSide::Right,
        ),
        Action::LookAround => look_around::execute(world_state),
        Action::DefendGoal => defend::goal(world_state, field_dimensions),
        Action::DefendKickOff => defend::kick_off(world_state, field_dimensions),
        Action::DefendLeft => defend::left(world_state, field_dimensions),
        Action::DefendRight => defend::right(world_state, field_dimensions),
        Action::DefendPenaltyKick => defend::penalty_kick(world_state, field_dimensions),
        Action::Dribble => dribble::execute(world_state),
        Action::Jump => jump::execute(world_state),
        Action::PrepareJump => prepare_jump::execute(world_state),
        Action::Search => search::execute(world_state, field_dimensions),
        Action::SearchForLostBall => lost_ball::execute(
            world_state,
            absolute_last_known_ball_position,
        ),
        Action::SupportLeft => support::execute(
            world_state,
            field_dimensions,
            Some(Side::Left),
            positions.left_midfielder_distance_to_ball,
            positions.left_midfielder_maximum_x_in_ready_and_when_ball_is_not_free,
            positions.left_midfielder_minimum_x,
        ),
        Action::SupportRight => support::execute(
            world_state,
            field_dimensions,
            Some(Side::Right),
            positions.right_midfielder_distance_to_ball,
            positions.right_midfielder_maximum_x_in_ready_and_when_ball_is_not_free,
            positions.right_midfielder_minimum_x,
        ),
        Action::SupportStriker => support::execute(
            world_state,
            field_dimensions,
            None,
            positions.striker_supporter_distance_to_ball,
            positions.striker_supporter_maximum_x_in_ready_and_when_ball_is_not_free,
            positions.striker_supporter_minimum_x,
        ),
        Action::WalkToKickOff => walk_to_kick_off::execute(world_state, field_dimensions),
        Action::WalkToPenaltyKick => walk_to_penalty_kick::execute(world_state, field_dimensions),
    }
}

/// Evaluate the candidates strictly in list order; the first success wins.
fn select_action(
    actions: &Vec<Action>,
    context: &CycleContext,
    absolute_last_known_ball_position: FieldPoint,
) -> (r: Option<(Action, MotionCommand)>)
    requires
        context.wf(),
    ensures
        r == spec_select(
            actions@,
            context.world_state,
            context.field_dimensions,
            context.configuration,
            absolute_last_known_ball_position,
        ),
{
    let ghost full = spec_select(
        actions@,
        context.world_state,
        context.field_dimensions,
        context.configuration,
        absolute_last_known_ball_position,
    );
    let mut i: usize = 0;
    assert(actions@.skip(0) =~= actions@);
    while i < actions.len()
        invariant
            i <= actions@.len(),
            context.wf(),
            full == spec_select(
                actions@,
                context.world_state,
                context.field_dimensions,
                context.configuration,
                absolute_last_known_ball_position,
            ),
            full == spec_select(
                actions@.skip(i as int),
                context.world_state,
                context.field_dimensions,
                context.configuration,
                absolute_last_known_ball_position,
            ),
        decreases actions@.len() - i,
    {
        assert(actions@.skip(i as int)[0] == actions@[i as int]);
        let action = actions[i];
        match evaluate(action, context, absolute_last_known_ball_position) {
            Some(command) => {
                return Some((action, command));
            },
            None => {},
        }
        assert(actions@.skip(i as int).drop_first() =~= actions@.skip(i as int + 1));
        i += 1;
    }
    assert(actions@.skip(actions@.len() as int) =~= Seq::<Action>::empty());
    None
}

impl Behavior {
    pub fn new(_context: CreationContext) -> (r: Self)
        ensures
            r == (Behavior {
                last_motion_command: MotionCommand::Unstiff,
                absolute_last_known_ball_position: FieldPoint { x: 0, y: 0 },
                active_since: None,
                active_since_visref: None,
                last_team_score: 0,
                last_opponent_score: 0,
            }),
    {
        Behavior {
            last_motion_command: MotionCommand::Unstiff,
            absolute_last_known_ball_position: FieldPoint { x: 0, y: 0 },
            active_since: None,
            active_since_visref: None,
            last_team_score: 0,
            last_opponent_score: 0,
        }
    }

    /// One control tick: update the timers, the referee-signal window and
    /// the score cache, then commit to the first applicable candidate — or
    /// to standing still, with no action reported, when nothing applies.
    pub fn cycle(&mut self, context: &CycleContext) -> (outputs: MainOutputs)
        requires
            context.wf(),
        ensures
            ({
                let world_state = context.world_state;
                let now = context.cycle_start_time;
                let config = context.configuration;
                match config.injected_motion_command {
                    Some(command) => {
                        &&& outputs.motion_command == command
                        &&& outputs.active_action is None
                        &&& *final(self) == *old(self)
                    },
                    None => {
                        let last_ball = match world_state.ball {
                            Some(ball) => ball.ball_in_field,
                            None => old(self).absolute_last_known_ball_position,
                        };
                        let active = spec_updated_active_since(
                            old(self).active_since,
                            world_state.robot.primary_state,
                            now,
                        );
                        let message = spec_first_game_controller_message(
                            context.network_messages@,
                        );
                        let opens = spec_window_opens(
                            context.filtered_whistle,
                            message,
                            old(self).last_team_score,
                            old(self).last_opponent_score,
                        );
                        let visref = spec_ref_signal_window_after(
                            old(self).active_since_visref,
                            opens,
                            now,
                            config.ref_signal_tolerance_duration,
                        );
                        let look = spec_look_around_enqueued(
                            active,
                            now,
                            config.initial_lookaround_duration,
                        );
                        let selected = spec_select(
                            spec_candidate_actions(visref is Some, look, world_state),
                            world_state,
                            context.field_dimensions,
                            config,
                            last_ball,
                        );
                        &&& final(self).absolute_last_known_ball_position == last_ball
                        &&& final(self).active_since == active
                        &&& final(self).active_since_visref == visref
                        &&& (final(self).last_team_score, final(self).last_opponent_score)
                            == spec_scores_after(
                            message,
                            old(self).last_team_score,
                            old(self).last_opponent_score,
                        )
                        &&& (match selected {
                            Some((action, command)) => outputs.motion_command == command
                                && outputs.active_action == Some(action),
                            None => outputs.motion_command == (MotionCommand::Stand {
                                head: HeadMotion::Center,
                                is_energy_saving: false,
                            }) && outputs.active_action is None,
                        })
                        &&& final(self).last_motion_command == outputs.motion_command
                    },
                }
            }),
    {
        if let Some(command) = context.configuration.injected_motion_command {
            return MainOutputs { motion_command: command, active_action: None };
        }
        let world_state = &context.world_state;
        let now = context.cycle_start_time;

        if let Some(ball_state) = world_state.ball {
            self.absolute_last_known_ball_position = ball_state.ball_in_field;
        }

        match (self.active_since, world_state.robot.primary_state) {
            (None, PrimaryState::Ready | PrimaryState::Playing) => {
                self.active_since = Some(now);
            },
            (None, _) => {},
            (Some(_), PrimaryState::Ready | PrimaryState::Setup | PrimaryState::Playing) => {},
            (Some(_), _) => {
                self.active_since = None;
            },
        }

        let message = first_game_controller_message(&context.network_messages);
        let score_changed = match &message {
            Some(m) => m.hulks_team.score != self.last_team_score || m.opponent_team.score
                != self.last_opponent_score,
            None => false,
        };
        let opens = context.filtered_whistle.started_this_cycle || score_changed;
        let ref_signal_enqueued: bool = match self.active_since_visref {
            None => {
                if opens {
                    self.active_since_visref = Some(now);
                    true
                } else {
                    false
                }
            },
            Some(since) => {
                if now >= since && now - since > context.configuration.ref_signal_tolerance_duration
                {
                    self.active_since_visref = None;
                    false
                } else {
                    true
                }
            },
        };

        if let Some(m) = message {
            self.last_team_score = m.hulks_team.score;
            self.last_opponent_score = m.opponent_team.score;
        }

        let look_around_enqueued: bool = match self.active_since {
            Some(since) => now >= since && now - since
                < context.configuration.initial_lookaround_duration,
            None => false,
        };

        let actions = collect_candidate_actions(
            ref_signal_enqueued,
            look_around_enqueued,
            world_state,
        );
        let outputs = match select_action(&actions, context, self.absolute_last_known_ball_position)
        {
            Some((action, motion_command)) => MainOutputs {
                motion_command,
                active_action: Some(action),
            },
            // No candidate was applicable (a delocalized robot in open
            // play): commit to standing still rather than sending the
            // motion layer nothing.
            None => MainOutputs {
                motion_command: MotionCommand::Stand {
                    head: HeadMotion::Center,
                    is_energy_saving: false,
                },
                active_action: None,
            },
        };

        self.last_motion_command = outputs.motion_command;
        outputs
    }
}

} // verus!
