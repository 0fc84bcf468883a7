use behavior_core::behavior::node::{
    Behavior, BehaviorConfiguration, CreationContext, CycleContext, RolePositions,
};
use behavior_core::game_state::{
    GameControllerStateMessage, GamePhase, GameState, Penalty, PenaltyShoot, Player, Players,
    SubState, Team, TeamColor, TeamState, PLAYERS, TEAM_NUMBER,
};
use behavior_core::messages::IncomingMessage;
use behavior_core::motion::{Action, HeadMotion, MotionCommand};
use behavior_core::world::{
    BallState, FallState, FieldDimensions, FieldPoint, FilteredGameState, FilteredWhistle,
    GameControllerState, Pose, PrimaryState, Role, RobotState, Side, WorldState,
};

fn dims() -> FieldDimensions {
    FieldDimensions { length: 9000, width: 6000, penalty_marker_distance: 1300 }
}

fn positions() -> RolePositions {
    RolePositions {
        left_midfielder_distance_to_ball: 1000,
        left_midfielder_maximum_x_in_ready_and_when_ball_is_not_free: 2000,
        left_midfielder_minimum_x: -3000,
        right_midfielder_distance_to_ball: 1000,
        right_midfielder_maximum_x_in_ready_and_when_ball_is_not_free: 2000,
        right_midfielder_minimum_x: -3000,
        striker_supporter_distance_to_ball: 1000,
        striker_supporter_maximum_x_in_ready_and_when_ball_is_not_free: 2000,
        striker_supporter_minimum_x: -3000,
    }
}

fn config() -> BehaviorConfiguration {
    BehaviorConfiguration {
        injected_motion_command: None,
        initial_lookaround_duration: 2000,
        ref_signal_tolerance_duration: 15_000,
        role_positions: positions(),
    }
}

fn quiet_whistle() -> FilteredWhistle {
    FilteredWhistle { is_detected: false, started_this_cycle: false }
}

fn world(primary_state: PrimaryState, role: Role) -> WorldState {
    WorldState {
        ball: None,
        robot: RobotState {
            primary_state,
            role,
            fall_state: FallState::Upright,
            robot_to_field: Some(Pose { x: 0, y: 0, theta: 0 }),
        },
        filtered_game_state: None,
        game_controller_state: None,
    }
}

fn context(world_state: WorldState, now: u64, whistle: FilteredWhistle) -> CycleContext {
    CycleContext {
        world_state,
        cycle_start_time: now,
        filtered_whistle: whistle,
        network_messages: Vec::new(),
        configuration: config(),
        field_dimensions: dims(),
    }
}

fn scheduler() -> Behavior {
    Behavior::new(CreationContext { behavior: config(), field_dimensions: dims() })
}

fn team_state(score: u8) -> TeamState {
    TeamState {
        team_number: TEAM_NUMBER,
        field_player_colour: TeamColor::Green,
        goalkeeper_colour: TeamColor::Black,
        score,
        penalty_shoot_index: 0,
        penalty_shoots: Vec::<PenaltyShoot>::new(),
        remaining_amount_of_messages: 1200,
        players: Vec::<Player>::new(),
    }
}

fn game_controller_message(team_score: u8, opponent_score: u8) -> IncomingMessage {
    IncomingMessage::GameController(GameControllerStateMessage {
        game_phase: GamePhase::Normal,
        game_state: GameState::Playing,
        sub_state: SubState::NoSubState,
        half: behavior_core::game_state::Half::First,
        remaining_time_in_half: 600,
        secondary_time: 0,
        hulks_team: team_state(team_score),
        opponent_team: team_state(opponent_score),
        kicking_team: Team::Opponent,
    })
}

fn penalty_shootout_state() -> GameControllerState {
    GameControllerState {
        game_state: GameState::Playing,
        game_phase: GamePhase::PenaltyShootout { kicking_team: Team::Opponent },
        kicking_team: Team::Opponent,
        last_game_state_change: 0,
        penalties: Players { players: [Penalty::NoPenalty; PLAYERS] },
        remaining_amount_of_messages: 1200,
        sub_state: None,
    }
}

#[test]
fn scenario_initial_striker_selects_initial() {
    let mut behavior = scheduler();
    let outputs = behavior.cycle(&context(
        world(PrimaryState::Initial, Role::Striker),
        0,
        quiet_whistle(),
    ));
    assert_eq!(outputs.active_action, Some(Action::Initial));
    assert_eq!(
        outputs.motion_command,
        MotionCommand::Stand {
            head: HeadMotion::LookAt { target: FieldPoint { x: 0, y: 0 } },
            is_energy_saving: true,
        },
    );
}

#[test]
fn scenario_keeper_in_penalty_shootout_never_defends_goal() {
    let mut behavior = scheduler();
    let mut snapshot = world(PrimaryState::Playing, Role::Keeper);
    snapshot.game_controller_state = Some(penalty_shootout_state());
    // A first cycle starts the activity timer; the later cycles are past
    // the look-around window.
    behavior.cycle(&context(snapshot, 0, quiet_whistle()));
    let outputs = behavior.cycle(&context(snapshot, 10_000, quiet_whistle()));
    assert!(matches!(
        outputs.active_action,
        Some(Action::Jump) | Some(Action::PrepareJump),
    ));
    // Without a ball estimate the keeper prepares rather than dives.
    assert_eq!(outputs.active_action, Some(Action::PrepareJump));
    assert_eq!(outputs.motion_command, MotionCommand::ArmsUpSquat);

    let mut with_ball = world(PrimaryState::Playing, Role::Keeper);
    with_ball.game_controller_state = Some(penalty_shootout_state());
    with_ball.ball = Some(BallState {
        ball_in_field: FieldPoint { x: -4000, y: 0 },
        field_side: Side::Left,
    });
    let outputs = behavior.cycle(&context(with_ball, 10_033, quiet_whistle()));
    assert_eq!(outputs.active_action, Some(Action::Jump));
    assert_eq!(outputs.motion_command, MotionCommand::Jump);
}

#[test]
fn keeper_outside_shootout_defends_goal() {
    let mut behavior = scheduler();
    let mut snapshot = world(PrimaryState::Playing, Role::Keeper);
    snapshot.game_controller_state = Some(GameControllerState {
        game_phase: GamePhase::Normal,
        ..penalty_shootout_state()
    });
    // Past the look-around window so the tactic is reachable.
    let mut outputs = behavior.cycle(&context(snapshot, 0, quiet_whistle()));
    assert_eq!(outputs.active_action, Some(Action::LookAround));
    outputs = behavior.cycle(&context(snapshot, 5000, quiet_whistle()));
    assert_eq!(outputs.active_action, Some(Action::DefendGoal));
    assert_eq!(
        outputs.motion_command,
        MotionCommand::Walk { target: FieldPoint { x: -4500, y: 0 }, head: HeadMotion::Center },
    );
}

#[test]
fn scenario_whistle_window_is_fifteen_seconds() {
    let mut behavior = scheduler();
    let snapshot = world(PrimaryState::Playing, Role::Striker);

    // The whistle starts at t = 0: the detection window opens at once.
    let started = FilteredWhistle { is_detected: true, started_this_cycle: true };
    let outputs = behavior.cycle(&context(snapshot, 0, started));
    assert_eq!(outputs.active_action, Some(Action::DetectRefSignal));
    assert_eq!(behavior.active_since_visref, Some(0));

    // The flag stays up without a new edge; the candidate stays enqueued
    // through the whole window.
    let sustained = FilteredWhistle { is_detected: true, started_this_cycle: false };
    let outputs = behavior.cycle(&context(snapshot, 7_500, sustained));
    assert_eq!(outputs.active_action, Some(Action::DetectRefSignal));
    let outputs = behavior.cycle(&context(snapshot, 15_000, sustained));
    assert_eq!(outputs.active_action, Some(Action::DetectRefSignal));
    assert_eq!(behavior.active_since_visref, Some(0));

    // Just past the window it closes and stays closed while the flag is up.
    let outputs = behavior.cycle(&context(snapshot, 15_100, sustained));
    assert_ne!(outputs.active_action, Some(Action::DetectRefSignal));
    assert_eq!(behavior.active_since_visref, None);
    let outputs = behavior.cycle(&context(snapshot, 16_000, sustained));
    assert_ne!(outputs.active_action, Some(Action::DetectRefSignal));
}

#[test]
fn scenario_score_change_opens_window_exactly_once() {
    let mut behavior = scheduler();
    let snapshot = world(PrimaryState::Playing, Role::Striker);

    // Cycle N: the first message carries the current scores; nothing opens
    // because the cache already holds zero-zero.
    let mut ctx = context(snapshot, 1_000, quiet_whistle());
    ctx.network_messages.push(game_controller_message(0, 0));
    let outputs = behavior.cycle(&ctx);
    assert_ne!(outputs.active_action, Some(Action::DetectRefSignal));
    assert_eq!(behavior.active_since_visref, None);

    // Cycle N + 1: our team scores; the window opens on this cycle.
    let mut ctx = context(snapshot, 1_033, quiet_whistle());
    ctx.network_messages.push(game_controller_message(1, 0));
    let outputs = behavior.cycle(&ctx);
    assert_eq!(outputs.active_action, Some(Action::DetectRefSignal));
    assert_eq!(behavior.active_since_visref, Some(1_033));

    // Cycle N + 2 with the same score: the open window keeps its opening
    // time; nothing re-opens.
    let mut ctx = context(snapshot, 1_066, quiet_whistle());
    ctx.network_messages.push(game_controller_message(1, 0));
    behavior.cycle(&ctx);
    assert_eq!(behavior.active_since_visref, Some(1_033));

    // After the window has passed, the unchanged score opens nothing new.
    let mut ctx = context(snapshot, 17_000, quiet_whistle());
    ctx.network_messages.push(game_controller_message(1, 0));
    let outputs = behavior.cycle(&ctx);
    assert_ne!(outputs.active_action, Some(Action::DetectRefSignal));
    assert_eq!(behavior.active_since_visref, None);
}

#[test]
fn identical_scores_in_consecutive_cycles_open_nothing() {
    let mut behavior = scheduler();
    let snapshot = world(PrimaryState::Playing, Role::Striker);
    for step in 0..3u64 {
        let mut ctx = context(snapshot, step * 33, quiet_whistle());
        ctx.network_messages.push(game_controller_message(0, 0));
        behavior.cycle(&ctx);
        assert_eq!(behavior.active_since_visref, None);
    }
}

#[test]
fn priority_penalize_beats_role_tactics() {
    let mut behavior = scheduler();
    let mut snapshot = world(PrimaryState::Penalized, Role::Keeper);
    snapshot.game_controller_state = Some(penalty_shootout_state());
    let outputs = behavior.cycle(&context(snapshot, 0, quiet_whistle()));
    assert_eq!(outputs.active_action, Some(Action::Penalize));
    assert_eq!(outputs.motion_command, MotionCommand::Penalized);
}

#[test]
fn every_state_and_role_yields_a_command() {
    let states = [
        PrimaryState::Unstiff,
        PrimaryState::Initial,
        PrimaryState::Ready,
        PrimaryState::Setup,
        PrimaryState::Playing,
        PrimaryState::Penalized,
        PrimaryState::Finished,
        PrimaryState::Calibration,
    ];
    let roles = [
        Role::DefenderLeft,
        Role::DefenderRight,
        Role::Keeper,
        Role::Loser,
        Role::MidfielderLeft,
        Role::MidfielderRight,
        Role::ReplacementKeeper,
        Role::Searcher,
        Role::Striker,
        Role::StrikerSupporter,
    ];
    for state in states {
        for role in roles {
            // The hardest snapshot: no pose, no ball, no game controller.
            // Every cycle still commits to a command; where no candidate
            // applies the scheduler stands and reports no action.
            let mut behavior = scheduler();
            let mut snapshot = world(state, role);
            snapshot.robot.robot_to_field = None;
            let outputs = behavior.cycle(&context(snapshot, 0, quiet_whistle()));
            if outputs.active_action.is_none() {
                assert_eq!(
                    outputs.motion_command,
                    MotionCommand::Stand { head: HeadMotion::Center, is_energy_saving: false },
                );
            }

            // A localized robot with a ball always has an applicable
            // candidate.
            let mut behavior = scheduler();
            let mut snapshot = world(state, role);
            snapshot.ball = Some(BallState {
                ball_in_field: FieldPoint { x: 500, y: 0 },
                field_side: Side::Left,
            });
            let outputs = behavior.cycle(&context(snapshot, 0, quiet_whistle()));
            assert!(outputs.active_action.is_some());
        }
    }
}

#[test]
fn a_delocalized_robot_in_open_play_stands_still() {
    let mut behavior = scheduler();
    let mut snapshot = world(PrimaryState::Playing, Role::MidfielderLeft);
    snapshot.robot.robot_to_field = None;
    // The first cycle is still inside the look-around window.
    let outputs = behavior.cycle(&context(snapshot, 0, quiet_whistle()));
    assert_eq!(outputs.active_action, Some(Action::LookAround));
    // Past it no candidate applies: the fallback stands, with no tactical
    // work falsely reported.
    let outputs = behavior.cycle(&context(snapshot, 5_000, quiet_whistle()));
    assert_eq!(outputs.active_action, None);
    assert_eq!(
        outputs.motion_command,
        MotionCommand::Stand { head: HeadMotion::Center, is_energy_saving: false },
    );
    assert_eq!(behavior.last_motion_command, outputs.motion_command);
}

#[test]
fn safety_actions_cover_their_states() {
    let cases = [
        (PrimaryState::Unstiff, Action::Unstiff, MotionCommand::Unstiff),
        (PrimaryState::Finished, Action::SitDown, MotionCommand::SitDown),
        (PrimaryState::Penalized, Action::Penalize, MotionCommand::Penalized),
        (
            PrimaryState::Setup,
            Action::Stand,
            MotionCommand::Stand { head: HeadMotion::Center, is_energy_saving: false },
        ),
        (
            PrimaryState::Calibration,
            Action::Calibrate,
            MotionCommand::Stand { head: HeadMotion::Center, is_energy_saving: false },
        ),
    ];
    for (state, action, command) in cases {
        let mut behavior = scheduler();
        let outputs = behavior.cycle(&context(world(state, Role::Striker), 0, quiet_whistle()));
        assert_eq!(outputs.active_action, Some(action));
        assert_eq!(outputs.motion_command, command);
    }
}

#[test]
fn falling_and_fallen_override_play() {
    let mut behavior = scheduler();
    let mut snapshot = world(PrimaryState::Playing, Role::Striker);
    snapshot.robot.fall_state = FallState::Falling;
    let outputs = behavior.cycle(&context(snapshot, 5000, quiet_whistle()));
    assert_eq!(outputs.active_action, Some(Action::FallSafely));
    assert_eq!(outputs.motion_command, MotionCommand::FallProtection);

    snapshot.robot.fall_state = FallState::Fallen;
    let outputs = behavior.cycle(&context(snapshot, 5033, quiet_whistle()));
    assert_eq!(outputs.active_action, Some(Action::StandUp));
    assert_eq!(outputs.motion_command, MotionCommand::StandUp);
}

#[test]
fn injected_command_bypasses_scheduling() {
    let mut behavior = scheduler();
    let mut ctx = context(world(PrimaryState::Penalized, Role::Striker), 0, quiet_whistle());
    ctx.configuration.injected_motion_command = Some(MotionCommand::SitDown);
    let outputs = behavior.cycle(&ctx);
    assert_eq!(outputs.motion_command, MotionCommand::SitDown);
    assert_eq!(outputs.active_action, None);
}

#[test]
fn look_around_window_ends_after_configured_duration() {
    let mut behavior = scheduler();
    let snapshot = world(PrimaryState::Playing, Role::Searcher);
    let outputs = behavior.cycle(&context(snapshot, 1_000, quiet_whistle()));
    assert_eq!(outputs.active_action, Some(Action::LookAround));
    assert_eq!(behavior.active_since, Some(1_000));

    // Still inside the look-around duration.
    let outputs = behavior.cycle(&context(snapshot, 2_500, quiet_whistle()));
    assert_eq!(outputs.active_action, Some(Action::LookAround));

    // Past it, the role tactic takes over.
    let outputs = behavior.cycle(&context(snapshot, 3_200, quiet_whistle()));
    assert_eq!(outputs.active_action, Some(Action::Search));
    assert_eq!(
        outputs.motion_command,
        MotionCommand::Walk { target: FieldPoint { x: 0, y: 0 }, head: HeadMotion::LookAround },
    );
}

#[test]
fn striker_follows_the_filtered_game_state() {
    let mut behavior = scheduler();
    let mut snapshot = world(PrimaryState::Playing, Role::Striker);
    snapshot.ball = Some(BallState {
        ball_in_field: FieldPoint { x: 1200, y: -300 },
        field_side: Side::Right,
    });
    snapshot.filtered_game_state = Some(FilteredGameState::Playing { ball_is_free: true });
    behavior.cycle(&context(snapshot, 0, quiet_whistle()));
    let outputs = behavior.cycle(&context(snapshot, 10_000, quiet_whistle()));
    assert_eq!(outputs.active_action, Some(Action::Dribble));
    assert_eq!(
        outputs.motion_command,
        MotionCommand::Walk {
            target: FieldPoint { x: 1200, y: -300 },
            head: HeadMotion::LookAt { target: FieldPoint { x: 1200, y: -300 } },
        },
    );

    snapshot.filtered_game_state = Some(FilteredGameState::Ready { kicking_team: Team::Hulks });
    let outputs = behavior.cycle(&context(snapshot, 10_033, quiet_whistle()));
    assert_eq!(outputs.active_action, Some(Action::WalkToKickOff));

    snapshot.filtered_game_state = Some(FilteredGameState::Ready { kicking_team: Team::Opponent });
    let outputs = behavior.cycle(&context(snapshot, 10_066, quiet_whistle()));
    assert_eq!(outputs.active_action, Some(Action::DefendKickOff));
}

#[test]
fn striker_penalty_kick_branches() {
    let mut behavior = scheduler();
    let mut snapshot = world(PrimaryState::Playing, Role::Striker);
    let mut controller = penalty_shootout_state();
    controller.game_phase = GamePhase::Normal;
    controller.game_state = GameState::Ready;
    controller.sub_state = Some(SubState::PenaltyKick);
    controller.kicking_team = Team::Opponent;
    snapshot.game_controller_state = Some(controller);
    behavior.cycle(&context(snapshot, 0, quiet_whistle()));

    snapshot.filtered_game_state = Some(FilteredGameState::Ready { kicking_team: Team::Hulks });
    let outputs = behavior.cycle(&context(snapshot, 10_000, quiet_whistle()));
    assert_eq!(outputs.active_action, Some(Action::WalkToPenaltyKick));
    // Penalty marker: half the length minus the marker distance.
    assert_eq!(
        outputs.motion_command,
        MotionCommand::Walk { target: FieldPoint { x: 3200, y: 0 }, head: HeadMotion::Center },
    );

    snapshot.filtered_game_state = Some(FilteredGameState::Ready { kicking_team: Team::Opponent });
    let outputs = behavior.cycle(&context(snapshot, 10_033, quiet_whistle()));
    assert_eq!(outputs.active_action, Some(Action::DefendPenaltyKick));
}

#[test]
fn support_offsets_from_the_ball_at_forty_five_degrees() {
    let mut behavior = scheduler();
    let mut snapshot = world(PrimaryState::Playing, Role::MidfielderLeft);
    snapshot.ball = Some(BallState {
        ball_in_field: FieldPoint { x: 0, y: 0 },
        field_side: Side::Right,
    });
    behavior.cycle(&context(snapshot, 0, quiet_whistle()));
    let outputs = behavior.cycle(&context(snapshot, 10_000, quiet_whistle()));
    assert_eq!(outputs.active_action, Some(Action::SupportLeft));
    // 1000 mm at forty-five degrees: 707 mm back and to the left.
    assert_eq!(
        outputs.motion_command,
        MotionCommand::Walk {
            target: FieldPoint { x: -707, y: 707 },
            head: HeadMotion::LookAt { target: FieldPoint { x: 0, y: 0 } },
        },
    );
}

#[test]
fn lost_ball_search_returns_to_the_cached_position() {
    let mut behavior = scheduler();
    let mut snapshot = world(PrimaryState::Playing, Role::Striker);
    snapshot.ball = Some(BallState {
        ball_in_field: FieldPoint { x: 2500, y: 1500 },
        field_side: Side::Left,
    });
    snapshot.filtered_game_state = Some(FilteredGameState::Playing { ball_is_free: true });
    behavior.cycle(&context(snapshot, 0, quiet_whistle()));
    behavior.cycle(&context(snapshot, 10_000, quiet_whistle()));
    assert_eq!(behavior.absolute_last_known_ball_position, FieldPoint { x: 2500, y: 1500 });

    // The ball is gone and the robot is reassigned to search where it was.
    let mut lost = world(PrimaryState::Playing, Role::Loser);
    lost.filtered_game_state = Some(FilteredGameState::Playing { ball_is_free: true });
    let outputs = behavior.cycle(&context(lost, 10_033, quiet_whistle()));
    assert_eq!(outputs.active_action, Some(Action::SearchForLostBall));
    assert_eq!(
        outputs.motion_command,
        MotionCommand::Walk {
            target: FieldPoint { x: 2500, y: 1500 },
            head: HeadMotion::LookAround,
        },
    );
}

#[test]
fn detect_ref_signal_tracks_the_right_sideline_junction() {
    let mut behavior = scheduler();
    let snapshot = world(PrimaryState::Playing, Role::Striker);
    let started = FilteredWhistle { is_detected: true, started_this_cycle: true };
    let outputs = behavior.cycle(&context(snapshot, 0, started));
    assert_eq!(outputs.active_action, Some(Action::DetectRefSignal));
    assert_eq!(
        outputs.motion_command,
        MotionCommand::Stand {
            head: HeadMotion::LookAt { target: FieldPoint { x: 4500, y: 6000 } },
            is_energy_saving: false,
        },
    );
}
