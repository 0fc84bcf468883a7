use behavior_core::led::{Ear, Eye, Rgb};
use behavior_core::led_status::{CreationContext, CycleContext, LedStatus};
use behavior_core::world::{FilteredWhistle, PrimaryState, Role};

fn led_status() -> LedStatus {
    LedStatus::new(CreationContext {})
}

fn quiet() -> FilteredWhistle {
    FilteredWhistle { is_detected: false, started_this_cycle: false }
}

fn context(primary_state: PrimaryState, now: u64, whistle: FilteredWhistle) -> CycleContext {
    CycleContext {
        primary_state,
        cycle_start_time: now,
        filtered_whistle: whistle,
        role: Role::Striker,
        balls_top: Vec::new(),
        balls_bottom: Vec::new(),
    }
}

fn uniform_ear(intensity: u8) -> Ear {
    Ear {
        intensity_at_0: intensity,
        intensity_at_36: intensity,
        intensity_at_72: intensity,
        intensity_at_108: intensity,
        intensity_at_144: intensity,
        intensity_at_180: intensity,
        intensity_at_216: intensity,
        intensity_at_252: intensity,
        intensity_at_288: intensity,
        intensity_at_324: intensity,
    }
}

#[test]
fn chest_colors_follow_the_primary_state() {
    let cases = [
        (PrimaryState::Ready, Rgb::blue()),
        (PrimaryState::Setup, Rgb::yellow()),
        (PrimaryState::Playing, Rgb::green()),
        (PrimaryState::Penalized, Rgb::red()),
        (PrimaryState::Finished, Rgb::black()),
        (PrimaryState::Initial, Rgb::black()),
        (PrimaryState::Calibration, Rgb::purple()),
    ];
    for (state, color) in cases {
        let mut leds = led_status();
        let outputs = leds.cycle(&context(state, 10_000, quiet()));
        assert_eq!(outputs.leds.chest, color);
        assert_eq!(outputs.leds.left_foot, Rgb::green());
        assert_eq!(outputs.leds.right_foot, Rgb::green());
    }
}

#[test]
fn the_unstiff_chest_blinks() {
    let mut leds = led_status();
    // The first cycle toggles the fresh blink state off.
    let outputs = leds.cycle(&context(PrimaryState::Unstiff, 1_000, quiet()));
    assert_eq!(outputs.leds.chest, Rgb::black());
    // Half a second later it toggles back on: blue.
    let outputs = leds.cycle(&context(PrimaryState::Unstiff, 1_500, quiet()));
    assert_eq!(outputs.leds.chest, Rgb::blue());
    // A shorter interval does not toggle.
    let outputs = leds.cycle(&context(PrimaryState::Unstiff, 1_700, quiet()));
    assert_eq!(outputs.leds.chest, Rgb::blue());
}

#[test]
fn ears_light_up_on_the_whistle() {
    let mut leds = led_status();
    let heard = FilteredWhistle { is_detected: true, started_this_cycle: true };
    let outputs = leds.cycle(&context(PrimaryState::Playing, 0, heard));
    assert_eq!(outputs.leds.left_ear, uniform_ear(255));
    assert_eq!(outputs.leds.right_ear, uniform_ear(255));

    let outputs = leds.cycle(&context(PrimaryState::Playing, 33, quiet()));
    assert_eq!(outputs.leds.left_ear, uniform_ear(0));
}

#[test]
fn the_role_eye_matches_the_role() {
    let cases = [
        (Role::Striker, Eye::striker_eye()),
        (Role::Keeper, Eye::keeper_eye()),
        (Role::ReplacementKeeper, Eye::keeper_replacement_eye()),
        (Role::Searcher, Eye::searcher_eye()),
        (Role::Loser, Eye::loser_eye()),
        (Role::DefenderLeft, LedStatus::defender_eye_left()),
        (Role::DefenderRight, LedStatus::defender_eye_right()),
        (Role::MidfielderLeft, Eye::default()),
    ];
    for (role, expected) in cases {
        let mut leds = led_status();
        let mut ctx = context(PrimaryState::Playing, 10_000, quiet());
        ctx.role = role;
        let outputs = leds.cycle(&ctx);
        assert_eq!(outputs.leds.right_eye, expected);
    }
}

#[test]
fn fresh_ball_perception_turns_the_left_eye_green() {
    let mut leds = led_status();
    let mut ctx = context(PrimaryState::Playing, 400, quiet());
    ctx.balls_top = vec![Some(1)];
    ctx.balls_bottom = vec![Some(0)];
    let outputs = leds.cycle(&ctx);
    assert_eq!(outputs.leds.left_eye, Eye::from(Rgb::green()));
    assert_eq!(leds.last_ball_data_top, 400);
    assert_eq!(leds.last_ball_data_bottom, 400);
}

#[test]
fn stale_cameras_turn_their_segments_red() {
    let mut leds = led_status();
    // Both cameras report at time zero...
    let mut ctx = context(PrimaryState::Playing, 0, quiet());
    ctx.balls_top = vec![Some(1)];
    ctx.balls_bottom = vec![Some(1)];
    leds.cycle(&ctx);
    // ... then fall silent past the staleness timeout.
    let mut ctx = context(PrimaryState::Playing, 1_500, quiet());
    ctx.balls_top = vec![None];
    let outputs = leds.cycle(&ctx);
    let eye = outputs.leds.left_eye;
    assert_eq!(eye.color_at_0, Rgb::red());
    assert_eq!(eye.color_at_135, Rgb::red());
    assert_eq!(eye.color_at_90, Rgb::black());
}

#[test]
fn the_unstiff_eyes_pulse_in_rainbow_colors() {
    // Full brightness at the front LED when the second is about to wrap.
    assert_eq!(LedStatus::intensity_to_dnt_color(0, 1000), Rgb::new(255, 0, 0));
    assert_eq!(LedStatus::intensity_to_dnt_color(2, 1000), Rgb::new(255, 255, 255));
    assert_eq!(LedStatus::intensity_to_dnt_color(4, 500), Rgb::new(0, 0, 127));
    assert_eq!(LedStatus::intensity_to_dnt_color(7, 0), Rgb::new(0, 0, 0));

    let eye = LedStatus::get_dnt_eye_dynamic(0);
    // At the epoch the front LED has wrapped to zero and the LED a quarter
    // around carries a three-quarter phase.
    assert_eq!(eye.color_at_0, Rgb::new(0, 0, 0));
    assert_eq!(eye.color_at_90, Rgb::new(191, 191, 191));

    let mut leds = led_status();
    let outputs = leds.cycle(&context(PrimaryState::Unstiff, 250, quiet()));
    assert_eq!(outputs.leds.left_eye, outputs.leds.right_eye);
    assert_eq!(outputs.leds.left_eye, LedStatus::get_dnt_eye_dynamic(250));
}

#[test]
fn get_eyes_splits_cameras_between_segments() {
    let (left, right) = LedStatus::get_eyes(0, &PrimaryState::Playing, true, false, true, Role::Keeper);
    // Top segments: fresh, background green. Bottom segments: stale, red.
    assert_eq!(left.color_at_0, Rgb::green());
    assert_eq!(left.color_at_45, Rgb::green());
    assert_eq!(left.color_at_315, Rgb::green());
    assert_eq!(left.color_at_135, Rgb::red());
    assert_eq!(left.color_at_180, Rgb::red());
    assert_eq!(left.color_at_225, Rgb::red());
    assert_eq!(left.color_at_90, Rgb::green());
    assert_eq!(right, Eye::keeper_eye());
}
