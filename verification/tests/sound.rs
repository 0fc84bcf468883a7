use behavior_core::wee_sound::{CreationContext, CycleContext, PlaySound};
use behavior_core::world::{FallState, PrimaryState};

fn context(
    now: u64,
    has_ground_contact: bool,
    fall_state: FallState,
    primary_state: PrimaryState,
) -> CycleContext {
    CycleContext {
        fall_state,
        has_ground_contact,
        primary_state,
        wee_sound_timeout: 5_000,
        cycle_start_time: now,
    }
}

#[test]
fn lifting_the_robot_plays_once() {
    let mut sound = PlaySound::new(CreationContext {});
    // On the ground: quiet.
    let outputs = sound.cycle(&context(0, true, FallState::Upright, PrimaryState::Playing));
    assert!(!outputs.play_sound);
    // Lifted: one jingle.
    let outputs = sound.cycle(&context(100, false, FallState::Upright, PrimaryState::Playing));
    assert!(outputs.play_sound);
    // Still in the air long past the timeout: no repeat.
    let outputs = sound.cycle(&context(9_000, false, FallState::Upright, PrimaryState::Playing));
    assert!(!outputs.play_sound);
}

#[test]
fn ground_contact_rearms_the_jingle() {
    let mut sound = PlaySound::new(CreationContext {});
    assert!(sound.cycle(&context(0, false, FallState::Upright, PrimaryState::Playing)).play_sound);
    // Put down after the timeout, then lifted again.
    assert!(!sound.cycle(&context(6_000, true, FallState::Upright, PrimaryState::Playing)).play_sound);
    assert!(sound.cycle(&context(7_000, false, FallState::Upright, PrimaryState::Playing)).play_sound);
}

#[test]
fn the_timeout_rate_limits_replays() {
    let mut sound = PlaySound::new(CreationContext {});
    assert!(sound.cycle(&context(0, false, FallState::Upright, PrimaryState::Playing)).play_sound);
    // Down and up again within the timeout: the rate limiter holds
    // everything, including the re-arming.
    assert!(!sound.cycle(&context(1_000, true, FallState::Upright, PrimaryState::Playing)).play_sound);
    assert!(!sound.cycle(&context(2_000, false, FallState::Upright, PrimaryState::Playing)).play_sound);
}

#[test]
fn no_jingle_while_falling_or_unstiff() {
    let mut sound = PlaySound::new(CreationContext {});
    let outputs = sound.cycle(&context(0, false, FallState::Falling, PrimaryState::Playing));
    assert!(!outputs.play_sound);
    let outputs = sound.cycle(&context(100, false, FallState::Upright, PrimaryState::Unstiff));
    assert!(!outputs.play_sound);
}
