use behavior_core::game_state::{PlayerNumber, TEAM_NUMBER};
use behavior_core::referee::{
    CreationContext, CycleContext, Referee, RefereeConfiguration, RefereePhase,
};
use behavior_core::world::{FilteredWhistle, Pose};

fn reporter() -> Referee {
    Referee::new(CreationContext { player_number: PlayerNumber::Two })
}

fn configuration() -> RefereeConfiguration {
    RefereeConfiguration { report_window_duration: 20_000, send_delay: 0 }
}

fn context(now: u64, whistle: FilteredWhistle) -> CycleContext {
    CycleContext {
        filtered_whistle: whistle,
        cycle_start_time: now,
        player_number: PlayerNumber::Two,
        robot_to_field: None,
        configuration: configuration(),
    }
}

fn quiet() -> FilteredWhistle {
    FilteredWhistle { is_detected: false, started_this_cycle: false }
}

fn edge() -> FilteredWhistle {
    FilteredWhistle { is_detected: true, started_this_cycle: true }
}

fn sustained() -> FilteredWhistle {
    FilteredWhistle { is_detected: true, started_this_cycle: false }
}

#[test]
fn a_whistle_edge_transmits_one_report() {
    let mut referee = reporter();
    let message = referee.cycle(&context(1_000, edge()));
    let message = message.expect("the whistle edge must produce a report");
    assert_eq!(message.header, [82, 71, 114, 116]);
    assert_eq!(message.version, 255);
    assert_eq!(message.player_num, 2);
    assert_eq!(message.team_num, TEAM_NUMBER);
    assert!((1..=16).contains(&message.fallen));
    assert_eq!(message.pose, [0, 0, 0]);
    assert_eq!(message.ball_age, 0);
    assert_eq!(message.ball, [0, 0]);
    assert_eq!(referee.phase, RefereePhase::Sent { since: 1_000 });
}

#[test]
fn at_most_one_report_per_episode() {
    let mut referee = reporter();
    assert!(referee.cycle(&context(0, edge())).is_some());

    // The whistle flag stays up for the whole episode: no further sends.
    for step in 1..100u64 {
        assert!(referee.cycle(&context(step * 33, sustained())).is_none());
    }
    // Even a fresh edge within the twenty-second episode is the same event.
    assert!(referee.cycle(&context(10_000, edge())).is_none());
    assert!(matches!(referee.phase, RefereePhase::Sent { .. }));
}

#[test]
fn a_new_episode_after_the_window_reports_again() {
    let mut referee = reporter();
    assert!(referee.cycle(&context(0, edge())).is_some());
    assert!(referee.cycle(&context(10_000, sustained())).is_none());

    // The episode ends after twenty seconds; without a new edge nothing
    // happens, with one a new report goes out.
    assert!(referee.cycle(&context(20_100, sustained())).is_none());
    assert_eq!(referee.phase, RefereePhase::Idle);
    let message = referee.cycle(&context(25_000, edge()));
    assert!(message.is_some());
    assert_eq!(referee.phase, RefereePhase::Sent { since: 25_000 });
}

#[test]
fn an_unsent_window_also_times_out() {
    let mut referee = reporter();
    let mut ctx = context(0, edge());
    ctx.configuration.send_delay = 30_000;
    // The delay is configured past the window: the episode opens but the
    // report never fires.
    assert!(referee.cycle(&ctx).is_none());
    assert_eq!(referee.phase, RefereePhase::WindowOpen { since: 0 });
    let mut ctx = context(21_000, sustained());
    ctx.configuration.send_delay = 30_000;
    assert!(referee.cycle(&ctx).is_none());
    assert_eq!(referee.phase, RefereePhase::Idle);
}

#[test]
fn a_send_delay_postpones_the_report() {
    let mut referee = reporter();
    let mut ctx = context(0, edge());
    ctx.configuration.send_delay = 1_000;
    assert!(referee.cycle(&ctx).is_none());
    assert_eq!(referee.phase, RefereePhase::WindowOpen { since: 0 });

    let mut ctx = context(500, sustained());
    ctx.configuration.send_delay = 1_000;
    assert!(referee.cycle(&ctx).is_none());

    let mut ctx = context(1_200, sustained());
    ctx.configuration.send_delay = 1_000;
    let message = referee.cycle(&ctx).expect("the delay has passed");
    assert_eq!(message.ball_age, 1_200);
}

#[test]
fn the_report_carries_the_localization_pose() {
    let mut referee = reporter();
    let mut ctx = context(2_000, edge());
    ctx.robot_to_field = Some(Pose { x: -3200, y: 450, theta: 1570 });
    let message = referee.cycle(&ctx).expect("the whistle edge must produce a report");
    assert_eq!(message.pose, [-3200, 450, 1570]);
}

#[test]
fn without_a_whistle_the_reporter_stays_idle() {
    let mut referee = reporter();
    for step in 0..50u64 {
        assert!(referee.cycle(&context(step * 33, quiet())).is_none());
    }
    assert_eq!(referee.phase, RefereePhase::Idle);
}
