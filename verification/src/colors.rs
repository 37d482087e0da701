//! The two color schemes of the picker and the precedence rule that selects
//! one. A palette names its colors abstractly; mapping them onto a real
//! terminal style is the caller's concern.

use crate::text::str_eq;
use vstd::prelude::*;

verus! {

/// The colors a palette can name.
#[derive(Clone, Copy, Debug, PartialEq, Eq, Structural)]
pub enum Color {
    Green,
    DarkGray,
    White,
}

/// A palette: the color of the selected row, of unselected text, and of the
/// window borders.
#[derive(Clone, Copy, Debug, PartialEq, Eq, Structural)]
pub struct Colors {
    pub selected: Color,
    pub unselected: Color,
    pub border: Color,
}

impl Colors {
    /// The palette for light terminals.
    pub fn light() -> (c: Self)
        ensures
            (c == Colors {
                selected: Color::Green,
                unselected: Color::DarkGray,
                border: Color::DarkGray,
            }),
    {
        Colors { selected: Color::Green, unselected: Color::DarkGray, border: Color::DarkGray }
    }

    /// The palette for dark terminals.
    pub fn dark() -> (c: Self)
        ensures
            (c == Colors {
                selected: Color::Green,
                unselected: Color::White,
                border: Color::White,
            }),
    {
        Colors { selected: Color::Green, unselected: Color::White, border: Color::White }
    }
}

/// A choice between the two palettes.
#[derive(Clone, Copy, Debug, PartialEq, Eq, Structural)]
pub enum ColorScheme {
    Light,
    Dark,
}

/// The palette a scheme selects.
pub open spec fn scheme_palette(c: ColorScheme) -> Colors {
    match c {
        ColorScheme::Light => Colors {
            selected: Color::Green,
            unselected: Color::DarkGray,
            border: Color::DarkGray,
        },
        ColorScheme::Dark => Colors {
            selected: Color::Green,
            unselected: Color::White,
            border: Color::White,
        },
    }
}

impl From<ColorScheme> for Colors {
    fn from(c: ColorScheme) -> (r: Colors) {
        match c {
            ColorScheme::Dark => Colors::dark(),
            ColorScheme::Light => Colors::light(),
        }
    }
}

impl vstd::std_specs::convert::FromSpecImpl<ColorScheme> for Colors {
    open spec fn obeys_from_spec() -> bool {
        true
    }

    open spec fn from_spec(c: ColorScheme) -> Colors {
        scheme_palette(c)
    }
}

/// The scheme the given sources select, in order of precedence: an explicit
/// environment override, then a command-line flag, then terminal
/// auto-detection, then dark as the default.
pub fn resolve_color_scheme(
    env: Option<ColorScheme>,
    arg: Option<ColorScheme>,
    detected: Option<ColorScheme>,
) -> (r: ColorScheme)
    ensures
        r == (if env is Some {
            env->0
        } else if arg is Some {
            arg->0
        } else if detected is Some {
            detected->0
        } else {
            ColorScheme::Dark
        }),
{
    match env {
        Option::Some(s) => s,
        Option::None => match arg {
            Option::Some(s) => s,
            Option::None => match detected {
                Option::Some(s) => s,
                Option::None => ColorScheme::Dark,
            },
        },
    }
}

/// The scheme a configuration word names: "light" or "dark", anything else
/// naming none.
pub fn scheme_from_name(name: &str) -> (r: Option<ColorScheme>)
    ensures
        r == (if name@ == "light"@ {
            Option::Some(ColorScheme::Light)
        } else if name@ == "dark"@ {
            Option::Some(ColorScheme::Dark)
        } else {
            Option::<ColorScheme>::None
        }),
{
    if str_eq(name, "light") {
        Option::Some(ColorScheme::Light)
    } else if str_eq(name, "dark") {
        Option::Some(ColorScheme::Dark)
    } else {
        Option::None
    }
}

} // verus!
