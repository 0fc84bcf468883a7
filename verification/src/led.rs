//! The LED data model: colors, eye and ear patterns, and the full LED
//! assignment published each cycle.

use vstd::prelude::*;

verus! {

/// One RGB color, eight bits per channel.
#[derive(Clone, Copy, Debug, PartialEq, Eq, Structural)]
pub struct Rgb {
    pub red: u8,
    pub green: u8,
    pub blue: u8,
}

impl Rgb {
    pub open spec fn spec_new(red: u8, green: u8, blue: u8) -> Rgb {
        Rgb { red, green, blue }
    }

    #[verifier::when_used_as_spec(spec_new)]
    pub fn new(red: u8, green: u8, blue: u8) -> (c: Rgb)
        ensures
            c == Rgb::spec_new(red, green, blue),
    {
        Rgb { red, green, blue }
    }

    pub open spec fn spec_black() -> Rgb {
        Rgb { red: 0, green: 0, blue: 0 }
    }

    #[verifier::when_used_as_spec(spec_black)]
    pub fn black() -> (c: Rgb)
        ensures
            c == Rgb::spec_black(),
    {
        Rgb { red: 0, green: 0, blue: 0 }
    }

    pub open spec fn spec_red() -> Rgb {
        Rgb { red: 255, green: 0, blue: 0 }
    }

    #[verifier::when_used_as_spec(spec_red)]
    pub fn red() -> (c: Rgb)
        ensures
            c == Rgb::spec_red(),
    {
        Rgb { red: 255, green: 0, blue: 0 }
    }

    pub open spec fn spec_green() -> Rgb {
        Rgb { red: 0, green: 255, blue: 0 }
    }

    #[verifier::when_used_as_spec(spec_green)]
    pub fn green() -> (c: Rgb)
        ensures
            c == Rgb::spec_green(),
    {
        Rgb { red: 0, green: 255, blue: 0 }
    }

    pub open spec fn spec_blue() -> Rgb {
        Rgb { red: 0, green: 0, blue: 255 }
    }

    #[verifier::when_used_as_spec(spec_blue)]
    pub fn blue() -> (c: Rgb)
        ensures
            c == Rgb::spec_blue(),
    {
        Rgb { red: 0, green: 0, blue: 255 }
    }

    pub open spec fn spec_yellow() -> Rgb {
        Rgb { red: 255, green: 255, blue: 0 }
    }

    #[verifier::when_used_as_spec(spec_yellow)]
    pub fn yellow() -> (c: Rgb)
        ensures
            c == Rgb::spec_yellow(),
    {
        Rgb { red: 255, green: 255, blue: 0 }
    }

    pub open spec fn spec_purple() -> Rgb {
        Rgb { red: 255, green: 0, blue: 255 }
    }

    #[verifier::when_used_as_spec(spec_purple)]
    pub fn purple() -> (c: Rgb)
        ensures
            c == Rgb::spec_purple(),
    {
        Rgb { red: 255, green: 0, blue: 255 }
    }

    pub open spec fn spec_orange() -> Rgb {
        Rgb { red: 255, green: 100, blue: 0 }
    }

    #[verifier::when_used_as_spec(spec_orange)]
    pub fn orange() -> (c: Rgb)
        ensures
            c == Rgb::spec_orange(),
    {
        Rgb { red: 255, green: 100, blue: 0 }
    }
}

/// The ring of eight LEDs around one eye, by angle.
#[derive(Clone, Copy, Debug, PartialEq, Eq, Structural)]
pub struct Eye {
    pub color_at_0: Rgb,
    pub color_at_45: Rgb,
    pub color_at_90: Rgb,
    pub color_at_135: Rgb,
    pub color_at_180: Rgb,
    pub color_at_225: Rgb,
    pub color_at_270: Rgb,
    pub color_at_315: Rgb,
}

impl Eye {
    /// The whole ring in one color.
    pub open spec fn spec_uniform(color: Rgb) -> Eye {
        Eye {
            color_at_0: color,
            color_at_45: color,
            color_at_90: color,
            color_at_135: color,
            color_at_180: color,
            color_at_225: color,
            color_at_270: color,
            color_at_315: color,
        }
    }

    pub fn loser_eye() -> (e: Eye)
        ensures
            e == (Eye {
                color_at_0: Rgb::new(255, 150, 255),
                color_at_45: Rgb::new(25, 0, 25),
                color_at_90: Rgb::new(255, 200, 25),
                color_at_135: Rgb::new(55, 0, 255),
                color_at_180: Rgb::new(255, 0, 25),
                color_at_225: Rgb::new(25, 30, 255),
                color_at_270: Rgb::new(255, 0, 255),
                color_at_315: Rgb::new(255, 10, 5),
            }),
    {
        Eye {
            color_at_0: Rgb::new(255, 150, 255),
            color_at_45: Rgb::new(25, 0, 25),
            color_at_90: Rgb::new(255, 200, 25),
            color_at_135: Rgb::new(55, 0, 255),
            color_at_180: Rgb::new(255, 0, 25),
            color_at_225: Rgb::new(25, 30, 255),
            color_at_270: Rgb::new(255, 0, 255),
            color_at_315: Rgb::new(255, 10, 5),
        }
    }

    pub fn striker_eye() -> (e: Eye)
        ensures
            e == Eye::spec_uniform(Rgb::red()),
    {
        Eye::from(Rgb::red())
    }

    pub fn striker_support_eye() -> (e: Eye)
        ensures
            e == Eye::spec_uniform(Rgb::yellow()),
    {
        Eye::from(Rgb::yellow())
    }

    pub fn defender_eye() -> (e: Eye)
        ensures
            e == Eye::spec_uniform(Rgb::new(255, 255, 255)),
    {
        Eye::from(Rgb::new(255, 255, 255))
    }

    pub fn keeper_eye() -> (e: Eye)
        ensures
            e == Eye::spec_uniform(Rgb::blue()),
    {
        Eye::from(Rgb::blue())
    }

    pub fn keeper_replacement_eye() -> (e: Eye)
        ensures
            e == Eye::spec_uniform(Rgb::new(0, 220, 255)),
    {
        Eye::from(Rgb::new(0, 220, 255))
    }

    pub fn searcher_eye() -> (e: Eye)
        ensures
            e == (Eye {
                color_at_0: Rgb::yellow(),
                color_at_45: Rgb::blue(),
                color_at_90: Rgb::yellow(),
                color_at_135: Rgb::blue(),
                color_at_180: Rgb::yellow(),
                color_at_225: Rgb::blue(),
                color_at_270: Rgb::yellow(),
                color_at_315: Rgb::blue(),
            }),
    {
        Eye {
            color_at_0: Rgb::yellow(),
            color_at_45: Rgb::blue(),
            color_at_90: Rgb::yellow(),
            color_at_135: Rgb::blue(),
            color_at_180: Rgb::yellow(),
            color_at_225: Rgb::blue(),
            color_at_270: Rgb::yellow(),
            color_at_315: Rgb::blue(),
        }
    }
}

impl Default for Eye {
    /// All LEDs off.
    fn default() -> (e: Eye)
        ensures
            e == Eye::spec_uniform(Rgb::black()),
    {
        Eye::spec_uniform_exec(Rgb::black())
    }
}

impl Eye {
    fn spec_uniform_exec(color: Rgb) -> (e: Eye)
        ensures
            e == Eye::spec_uniform(color),
    {
        Eye {
            color_at_0: color,
            color_at_45: color,
            color_at_90: color,
            color_at_135: color,
            color_at_180: color,
            color_at_225: color,
            color_at_270: color,
            color_at_315: color,
        }
    }
}

impl From<Rgb> for Eye {
    fn from(rgb: Rgb) -> (e: Self) {
        Eye {
            color_at_0: rgb,
            color_at_45: rgb,
            color_at_90: rgb,
            color_at_135: rgb,
            color_at_180: rgb,
            color_at_225: rgb,
            color_at_270: rgb,
            color_at_315: rgb,
        }
    }
}

impl vstd::std_specs::convert::FromSpecImpl<Rgb> for Eye {
    open spec fn obeys_from_spec() -> bool {
        true
    }

    open spec fn from_spec(rgb: Rgb) -> Eye {
        Eye::spec_uniform(rgb)
    }
}

/// The ring of ten LEDs around one ear, by angle; each an intensity from
/// zero (off) to 255 (full).
#[derive(Clone, Copy, Debug, PartialEq, Eq, Structural)]
pub struct Ear {
    pub intensity_at_0: u8,
    pub intensity_at_36: u8,
    pub intensity_at_72: u8,
    pub intensity_at_108: u8,
    pub intensity_at_144: u8,
    pub intensity_at_180: u8,
    pub intensity_at_216: u8,
    pub intensity_at_252: u8,
    pub intensity_at_288: u8,
    pub intensity_at_324: u8,
}

impl Ear {
    /// The whole ring at one intensity.
    pub open spec fn spec_uniform(intensity: u8) -> Ear {
        Ear {
            intensity_at_0: intensity,
            intensity_at_36: intensity,
            intensity_at_72: intensity,
            intensity_at_108: intensity,
            intensity_at_144: intensity,
            intensity_at_180: intensity,
            intensity_at_216: intensity,
            intensity_at_252: intensity,
            intensity_at_288: intensity,
            intensity_at_324: intensity,
        }
    }
}

impl From<u8> for Ear {
    fn from(intensity: u8) -> (e: Self) {
        Ear {
            intensity_at_0: intensity,
            intensity_at_36: intensity,
            intensity_at_72: intensity,
            intensity_at_108: intensity,
            intensity_at_144: intensity,
            intensity_at_180: intensity,
            intensity_at_216: intensity,
            intensity_at_252: intensity,
            intensity_at_288: intensity,
            intensity_at_324: intensity,
        }
    }
}

impl vstd::std_specs::convert::FromSpecImpl<u8> for Ear {
    open spec fn obeys_from_spec() -> bool {
        true
    }

    open spec fn from_spec(intensity: u8) -> Ear {
        Ear::spec_uniform(intensity)
    }
}

/// The full LED assignment of one cycle.
#[derive(Clone, Copy, Debug, PartialEq, Eq, Structural)]
pub struct Leds {
    pub left_ear: Ear,
    pub right_ear: Ear,
    pub chest: Rgb,
    pub left_foot: Rgb,
    pub right_foot: Rgb,
    pub left_eye: Eye,
    pub right_eye: Eye,
}

} // verus!
