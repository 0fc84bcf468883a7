//! Derive the LED assignment of one cycle from the robot's state: chest
//! color by game phase, ear intensity by whistle, and eye patterns by ball
//! perception and role.

use vstd::prelude::*;

use crate::led::{Ear, Eye, Leds, Rgb};
use crate::world::{FilteredWhistle, PrimaryState, Role};

verus! {

/// How long the chest blink phase lasts, milliseconds.
pub const BLINK_INTERVAL: u64 = 500;

/// After how long without ball perception data a camera counts as stale,
/// milliseconds.
pub const BALL_DATA_TIMEOUT: u64 = 1000;

pub struct CreationContext {}

/// The per-cycle inputs. Each entry of the perception vectors is one
/// perception slice: absent when the camera produced no data, otherwise the
/// number of balls seen.
pub struct CycleContext {
    pub primary_state: PrimaryState,
    /// Monotonic cycle timestamp, milliseconds.
    pub cycle_start_time: u64,
    pub filtered_whistle: FilteredWhistle,
    pub role: Role,
    pub balls_top: Vec<Option<u32>>,
    pub balls_bottom: Vec<Option<u32>>,
}

pub struct MainOutputs {
    pub leds: Leds,
}

/// The LED driver's persistent state.
pub struct LedStatus {
    pub blink_state: bool,
    pub last_blink_toggle: u64,
    pub last_ball_data_top: u64,
    pub last_ball_data_bottom: u64,
}

/// Whether any perception slice saw at least one ball.
pub open spec fn spec_any_ball_seen(slices: Seq<Option<u32>>) -> bool {
    exists|i: int| 0 <= i < slices.len() && (#[trigger] slices[i] matches Some(count) && count > 0)
}

/// Whether any perception slice carried data at all.
pub open spec fn spec_any_data(slices: Seq<Option<u32>>) -> bool {
    exists|i: int| 0 <= i < slices.len() && (#[trigger] slices[i]) is Some
}

/// The blink state and toggle time after the cycle: toggled once the
/// interval has passed. A clock running backwards skips the toggle.
pub open spec fn spec_blink_after(blink_state: bool, last_toggle: u64, now: u64) -> (bool, u64) {
    if now >= last_toggle && now - last_toggle >= BLINK_INTERVAL {
        (!blink_state, now)
    } else {
        (blink_state, last_toggle)
    }
}

/// The chest button color by game phase; blinking blue while unstiff.
pub open spec fn spec_chest_color(primary_state: PrimaryState, blink_state: bool) -> Rgb {
    match primary_state {
        PrimaryState::Unstiff => if blink_state {
            Rgb::blue()
        } else {
            Rgb::black()
        },
        PrimaryState::Initial => Rgb::black(),
        PrimaryState::Ready => Rgb::blue(),
        PrimaryState::Setup => Rgb::yellow(),
        PrimaryState::Playing => Rgb::green(),
        PrimaryState::Penalized => Rgb::red(),
        PrimaryState::Finished => Rgb::black(),
        PrimaryState::Calibration => Rgb::purple(),
    }
}

/// A camera's ball timestamp after the cycle: moved to now whenever the
/// camera produced data this cycle.
pub open spec fn spec_ball_data_after(slices: Seq<Option<u32>>, previous: u64, now: u64) -> u64 {
    if spec_any_data(slices) {
        now
    } else {
        previous
    }
}

/// Whether a camera's last ball data is stale. A clock running backwards
/// counts as fresh.
pub open spec fn spec_ball_data_too_old(last: u64, now: u64) -> bool {
    now >= last && now - last > BALL_DATA_TIMEOUT
}

/// One intensity step of the rainbow eye: the fraction of the current
/// second, phase-shifted per LED location.
pub open spec fn spec_dnt_intensity_permille(cycle_start_time: u64, location: u64) -> u16 {
    (((cycle_start_time % 1000) + 1000 - location * 125) % 1000) as u16
}

/// The color of one rainbow-eye LED at the given brightness, red at the
/// front, white at the sides, blue at the back.
pub open spec fn spec_dnt_color(location: i32, intensity_permille: u16) -> Rgb {
    let value = ((255 * intensity_permille as u32) / 1000) as u8;
    if location == 0 || location == 7 || location == 1 {
        Rgb::new(value, 0, 0)
    } else if location == 2 || location == 6 {
        Rgb::new(value, value, value)
    } else {
        Rgb::new(0, 0, value)
    }
}

/// The animated eye shown while unstiff, one phase-shifted pulse per LED.
pub open spec fn spec_dnt_eye_dynamic(cycle_start_time: u64) -> Eye {
    Eye {
        color_at_0: spec_dnt_color(0, spec_dnt_intensity_permille(cycle_start_time, 0)),
        color_at_45: spec_dnt_color(1, spec_dnt_intensity_permille(cycle_start_time, 1)),
        color_at_90: spec_dnt_color(2, spec_dnt_intensity_permille(cycle_start_time, 2)),
        color_at_135: spec_dnt_color(3, spec_dnt_intensity_permille(cycle_start_time, 3)),
        color_at_180: spec_dnt_color(4, spec_dnt_intensity_permille(cycle_start_time, 4)),
        color_at_225: spec_dnt_color(5, spec_dnt_intensity_permille(cycle_start_time, 5)),
        color_at_270: spec_dnt_color(6, spec_dnt_intensity_permille(cycle_start_time, 6)),
        color_at_315: spec_dnt_color(7, spec_dnt_intensity_permille(cycle_start_time, 7)),
    }
}

/// The ball indicator color of one eye segment: red for a stale camera,
/// else green while any camera sees a ball, else off.
pub open spec fn spec_ball_segment_color(too_old: bool, any_seen: bool) -> Rgb {
    if too_old {
        Rgb::red()
    } else if any_seen {
        Rgb::green()
    } else {
        Rgb::black()
    }
}

/// The left (ball indicator) eye: the upper segments show the top camera,
/// the lower segments the bottom camera, the sides the shared background.
pub open spec fn spec_ball_eye(any_seen: bool, top_too_old: bool, bottom_too_old: bool) -> Eye {
    let background = if any_seen {
        Rgb::green()
    } else {
        Rgb::black()
    };
    let top = spec_ball_segment_color(top_too_old, any_seen);
    let bottom = spec_ball_segment_color(bottom_too_old, any_seen);
    Eye {
        color_at_0: top,
        color_at_45: top,
        color_at_90: background,
        color_at_135: bottom,
        color_at_180: bottom,
        color_at_225: bottom,
        color_at_270: background,
        color_at_315: top,
    }
}

/// The right (role) eye.
pub open spec fn spec_role_eye(role: Role) -> Eye {
    match role {
        Role::Loser => Eye {
            color_at_0: Rgb::new(255, 150, 255),
            color_at_45: Rgb::new(25, 0, 25),
            color_at_90: Rgb::new(255, 200, 25),
            color_at_135: Rgb::new(55, 0, 255),
            color_at_180: Rgb::new(255, 0, 25),
            color_at_225: Rgb::new(25, 30, 255),
            color_at_270: Rgb::new(255, 0, 255),
            color_at_315: Rgb::new(255, 10, 5),
        },
        Role::Striker => Eye::spec_uniform(Rgb::red()),
        Role::StrikerSupporter => Eye::spec_uniform(Rgb::orange()),
        Role::DefenderLeft => Eye {
            color_at_0: Rgb::black(),
            color_at_45: Rgb::new(255, 255, 255),
            color_at_90: Rgb::new(255, 255, 255),
            color_at_135: Rgb::new(255, 255, 255),
            color_at_180: Rgb::black(),
            color_at_225: Rgb::black(),
            color_at_270: Rgb::black(),
            color_at_315: Rgb::black(),
        },
        Role::DefenderRight => Eye {
            color_at_0: Rgb::black(),
            color_at_45: Rgb::black(),
            color_at_90: Rgb::black(),
            color_at_135: Rgb::black(),
            color_at_180: Rgb::black(),
            color_at_225: Rgb::new(255, 255, 255),
            color_at_270: Rgb::new(255, 255, 255),
            color_at_315: Rgb::new(255, 255, 255),
        },
        Role::Keeper => Eye::spec_uniform(Rgb::blue()),
        Role::ReplacementKeeper => Eye::spec_uniform(Rgb::new(0, 220, 255)),
        Role::Searcher => Eye {
            color_at_0: Rgb::yellow(),
            color_at_45: Rgb::blue(),
            color_at_90: Rgb::yellow(),
            color_at_135: Rgb::blue(),
            color_at_180: Rgb::yellow(),
            color_at_225: Rgb::blue(),
            color_at_270: Rgb::yellow(),
            color_at_315: Rgb::blue(),
        },
        _ => Eye::spec_uniform(Rgb::black()),
    }
}

/// Both eyes: the rainbow animation while unstiff, otherwise the ball
/// indicator left and the role color right.
pub open spec fn spec_get_eyes(
    cycle_start_time: u64,
    primary_state: PrimaryState,
    any_ball_seen: bool,
    top_too_old: bool,
    bottom_too_old: bool,
    role: Role,
) -> (Eye, Eye) {
    match primary_state {
        PrimaryState::Unstiff => (
            spec_dnt_eye_dynamic(cycle_start_time),
            spec_dnt_eye_dynamic(cycle_start_time),
        ),
        _ => (spec_ball_eye(any_ball_seen, top_too_old, bottom_too_old), spec_role_eye(role)),
    }
}

fn any_ball_seen(slices: &Vec<Option<u32>>) -> (r: bool)
    ensures
        r == spec_any_ball_seen(slices@),
{
    let mut i: usize = 0;
    while i < slices.len()
        invariant
            i <= slices@.len(),
            forall|j: int| 0 <= j < i ==> !(#[trigger] slices@[j] matches Some(count) && count > 0),
        decreases slices@.len() - i,
    {
        match slices[i] {
            Some(count) => if count > 0 {
                return true;
            },
            None => {},
        }
        i += 1;
    }
    false
}

fn any_data(slices: &Vec<Option<u32>>) -> (r: bool)
    ensures
        r == spec_any_data(slices@),
{
    let mut i: usize = 0;
    while i < slices.len()
        invariant
            i <= slices@.len(),
            forall|j: int| 0 <= j < i ==> (#[trigger] slices@[j]) is None,
        decreases slices@.len() - i,
    {
        if slices[i].is_some() {
            return true;
        }
        i += 1;
    }
    false
}

impl LedStatus {
    pub fn new(_context: CreationContext) -> (r: Self)
        ensures
            r == (LedStatus {
                blink_state: true,
                last_blink_toggle: 0,
                last_ball_data_top: 0,
                last_ball_data_bottom: 0,
            }),
    {
        LedStatus {
            blink_state: true,
            last_blink_toggle: 0,
            last_ball_data_top: 0,
            last_ball_data_bottom: 0,
        }
    }

    pub fn loser_eye() -> (e: Eye)
        ensures
            e == spec_role_eye(Role::Loser),
    {
        Eye::loser_eye()
    }

    pub fn defender_eye_right() -> (e: Eye)
        ensures
            e == spec_role_eye(Role::DefenderRight),
    {
        Eye {
            color_at_0: Rgb::black(),
            color_at_45: Rgb::black(),
            color_at_90: Rgb::black(),
            color_at_135: Rgb::black(),
            color_at_180: Rgb::black(),
            color_at_225: Rgb::new(255, 255, 255),
            color_at_270: Rgb::new(255, 255, 255),
            color_at_315: Rgb::new(255, 255, 255),
        }
    }

    pub fn defender_eye_left() -> (e: Eye)
        ensures
            e == spec_role_eye(Role::DefenderLeft),
    {
        Eye {
            color_at_0: Rgb::black(),
            color_at_45: Rgb::new(255, 255, 255),
            color_at_90: Rgb::new(255, 255, 255),
            color_at_135: Rgb::new(255, 255, 255),
            color_at_180: Rgb::black(),
            color_at_225: Rgb::black(),
            color_at_270: Rgb::black(),
            color_at_315: Rgb::black(),
        }
    }

    pub fn replacement_keeper_eye() -> (e: Eye)
        ensures
            e == spec_role_eye(Role::ReplacementKeeper),
    {
        Eye::keeper_replacement_eye()
    }

    pub fn searcher_eye() -> (e: Eye)
        ensures
            e == spec_role_eye(Role::Searcher),
    {
        Eye::searcher_eye()
    }

    /// One LED of the rainbow eye, brightness given as a fraction of one in
    /// permille.
    pub fn intensity_to_dnt_color(location: i32, intensity_permille: u16) -> (c: Rgb)
        requires
            0 <= location <= 7,
            intensity_permille <= 1000,
        ensures
            c == spec_dnt_color(location, intensity_permille),
    {
        let value = ((255 * intensity_permille as u32) / 1000) as u8;
        match location {
            0 | 7 | 1 => Rgb::new(value, 0, 0),
            2 | 6 => Rgb::new(value, value, value),
            _ => Rgb::new(0, 0, value),
        }
    }

    pub fn get_dnt_eye_dynamic(cycle_start_time: u64) -> (e: Eye)
        ensures
            e == spec_dnt_eye_dynamic(cycle_start_time),
    {
        let base = cycle_start_time % 1000;
        Eye {
            color_at_0: Self::intensity_to_dnt_color(0, ((base + 1000) % 1000) as u16),
            color_at_45: Self::intensity_to_dnt_color(1, ((base + 1000 - 125) % 1000) as u16),
            color_at_90: Self::intensity_to_dnt_color(2, ((base + 1000 - 250) % 1000) as u16),
            color_at_135: Self::intensity_to_dnt_color(3, ((base + 1000 - 375) % 1000) as u16),
            color_at_180: Self::intensity_to_dnt_color(4, ((base + 1000 - 500) % 1000) as u16),
            color_at_225: Self::intensity_to_dnt_color(5, ((base + 1000 - 625) % 1000) as u16),
            color_at_270: Self::intensity_to_dnt_color(6, ((base + 1000 - 750) % 1000) as u16),
            color_at_315: Self::intensity_to_dnt_color(7, ((base + 1000 - 875) % 1000) as u16),
        }
    }

    pub fn get_eyes(
        cycle_start_time: u64,
        primary_state: &PrimaryState,
        any_ball_seen: bool,
        top_too_old: bool,
        bottom_too_old: bool,
        role: Role,
    ) -> (eyes: (Eye, Eye))
        ensures
            eyes == spec_get_eyes(
                cycle_start_time,
                *primary_state,
                any_ball_seen,
                top_too_old,
                bottom_too_old,
                role,
            ),
    {
        match primary_state {
            PrimaryState::Unstiff => {
                let rainbow_eye = Self::get_dnt_eye_dynamic(cycle_start_time);
                (rainbow_eye, rainbow_eye)
            },
            _ => {
                let background = if any_ball_seen {
                    Rgb::green()
                } else {
                    Rgb::black()
                };
                let top = if top_too_old {
                    Rgb::red()
                } else {
                    background
                };
                let bottom = if bottom_too_old {
                    Rgb::red()
                } else {
                    background
                };
                let right_eye = match role {
                    Role::Loser => Self::loser_eye(),
                    Role::Striker => Eye::from(Rgb::red()),
                    Role::StrikerSupporter => Eye::from(Rgb::orange()),
                    Role::DefenderLeft => Self::defender_eye_left(),
                    Role::DefenderRight => Self::defender_eye_right(),
                    Role::Keeper => Eye::from(Rgb::blue()),
                    Role::ReplacementKeeper => Self::replacement_keeper_eye(),
                    Role::Searcher => Self::searcher_eye(),
                    _ => Eye::default(),
                };
                (
                    Eye {
                        color_at_0: top,
                        color_at_45: top,
                        color_at_90: background,
                        color_at_135: bottom,
                        color_at_180: bottom,
                        color_at_225: bottom,
                        color_at_270: background,
                        color_at_315: top,
                    },
                    right_eye,
                )
            },
        }
    }

    /// One control tick: advance the blink and perception timestamps and
    /// publish the full LED assignment.
    pub fn cycle(&mut self, context: &CycleContext) -> (outputs: MainOutputs)
        ensures
            ({
                let now = context.cycle_start_time;
                let (blink, toggle) = spec_blink_after(
                    old(self).blink_state,
                    old(self).last_blink_toggle,
                    now,
                );
                let top = spec_ball_data_after(
                    context.balls_top@,
                    old(self).last_ball_data_top,
                    now,
                );
                let bottom = spec_ball_data_after(
                    context.balls_bottom@,
                    old(self).last_ball_data_bottom,
                    now,
                );
                let any_seen = spec_any_ball_seen(context.balls_top@) || spec_any_ball_seen(
                    context.balls_bottom@,
                );
                let eyes = spec_get_eyes(
                    now,
                    context.primary_state,
                    any_seen,
                    spec_ball_data_too_old(top, now),
                    spec_ball_data_too_old(bottom, now),
                    context.role,
                );
                let ear = Ear::spec_uniform(
                    if context.filtered_whistle.is_detected {
                        255
                    } else {
                        0
                    },
                );
                &&& final(self).blink_state == blink
                &&& final(self).last_blink_toggle == toggle
                &&& final(self).last_ball_data_top == top
                &&& final(self).last_ball_data_bottom == bottom
                &&& outputs.leds == (Leds {
                    left_ear: ear,
                    right_ear: ear,
                    chest: spec_chest_color(context.primary_state, blink),
                    left_foot: Rgb::green(),
                    right_foot: Rgb::green(),
                    left_eye: eyes.0,
                    right_eye: eyes.1,
                })
            }),
    {
        let now = context.cycle_start_time;
        if now >= self.last_blink_toggle && now - self.last_blink_toggle >= BLINK_INTERVAL {
            self.last_blink_toggle = now;
            self.blink_state = !self.blink_state;
        }

        let chest = match context.primary_state {
            PrimaryState::Unstiff => if self.blink_state {
                Rgb::blue()
            } else {
                Rgb::black()
            },
            PrimaryState::Initial => Rgb::black(),
            PrimaryState::Ready => Rgb::blue(),
            PrimaryState::Setup => Rgb::yellow(),
            PrimaryState::Playing => Rgb::green(),
            PrimaryState::Penalized => Rgb::red(),
            PrimaryState::Finished => Rgb::black(),
            PrimaryState::Calibration => Rgb::purple(),
        };

        let at_least_one_ball_data_top = any_ball_seen(&context.balls_top);
        let at_least_one_ball_data_bottom = any_ball_seen(&context.balls_bottom);

        if any_data(&context.balls_top) {
            self.last_ball_data_top = now;
        }
        if any_data(&context.balls_bottom) {
            self.last_ball_data_bottom = now;
        }

        let last_ball_data_top_too_old = now >= self.last_ball_data_top && now
            - self.last_ball_data_top > BALL_DATA_TIMEOUT;
        let last_ball_data_bottom_too_old = now >= self.last_ball_data_bottom && now
            - self.last_ball_data_bottom > BALL_DATA_TIMEOUT;

        let (left_eye, right_eye) = Self::get_eyes(
            now,
            &context.primary_state,
            at_least_one_ball_data_top || at_least_one_ball_data_bottom,
            last_ball_data_top_too_old,
            last_ball_data_bottom_too_old,
            context.role,
        );

        let ears: Ear = Ear::from(
            if context.filtered_whistle.is_detected {
                255
            } else {
                0
            },
        );

        let leds = Leds {
            left_ear: ears,
            right_ear: ears,
            chest,
            left_foot: Rgb::green(),
            right_foot: Rgb::green(),
            left_eye,
            right_eye,
        };

        MainOutputs { leds }
    }
}

} // verus!
