//! The style resolver: a total mapping from interaction mode to the
//! status-bar palette and text color.

use vstd::prelude::*;
use crate::ui::Mode;

verus! {

/// A color with an alpha channel, as the shell's renderer takes it.
#[derive(Clone, Copy, Debug, PartialEq, Eq, Structural)]
pub struct Color {
    pub r: u8,
    pub g: u8,
    pub b: u8,
    pub a: u8,
}

impl Color {
    /// The opaque color with the given channels.
    pub open spec fn spec_rgb(r: u8, g: u8, b: u8) -> Color {
        Color { r, g, b, a: 255u8 }
    }

    /// The color with the given channels and alpha.
    pub open spec fn spec_rgba(r: u8, g: u8, b: u8, a: u8) -> Color {
        Color { r, g, b, a }
    }

    /// Builds the opaque color with the given channels.
    pub fn rgb(r: u8, g: u8, b: u8) -> (c: Color)
        ensures
            c == Color::spec_rgb(r, g, b),
    {
        Color { r, g, b, a: 255 }
    }

    /// Builds the color with the given channels and alpha.
    pub fn rgba(r: u8, g: u8, b: u8, a: u8) -> (c: Color)
        ensures
            c == Color::spec_rgba(r, g, b, a),
    {
        Color { r, g, b, a }
    }
}

/// The three-segment status-bar palette for one mode.
#[derive(Clone, Copy, Debug, PartialEq, Eq, Structural)]
pub struct Colors {
    pub primary: Color,
    pub secondary: Color,
    pub tertiary: Color,
}

/// The neutral background the frame is cleared to.
pub open spec fn spec_dark_grey() -> Color {
    Color::spec_rgb(45, 45, 45)
}

#[verifier::when_used_as_spec(spec_dark_grey)]
pub fn dark_grey() -> (c: Color)
    ensures
        c == spec_dark_grey(),
{
    Color::rgb(45, 45, 45)
}

/// The text color used on every bar but the error bar.
pub open spec fn spec_dark_text_color() -> Color {
    Color::spec_rgba(52, 56, 56, 255)
}

#[verifier::when_used_as_spec(spec_dark_text_color)]
pub fn dark_text_color() -> (c: Color)
    ensures
        c == spec_dark_text_color(),
{
    Color::rgba(52, 56, 56, 255)
}

/// The light text color used on the error bar, for contrast.
pub open spec fn spec_light_text_color() -> Color {
    Color::spec_rgba(255, 255, 255, 255)
}

#[verifier::when_used_as_spec(spec_light_text_color)]
pub fn light_text_color() -> (c: Color)
    ensures
        c == spec_light_text_color(),
{
    Color::rgba(255, 255, 255, 255)
}

/// The semi-transparent fill behind the help table.
pub open spec fn spec_help_background_color() -> Color {
    Color::spec_rgba(0, 223, 252, 200)
}

#[verifier::when_used_as_spec(spec_help_background_color)]
pub fn help_background_color() -> (c: Color)
    ensures
        c == spec_help_background_color(),
{
    Color::rgba(0, 223, 252, 200)
}

pub open spec fn spec_light_blue() -> Color {
    Color::spec_rgb(0, 223, 252)
}

#[verifier::when_used_as_spec(spec_light_blue)]
pub fn light_blue() -> (c: Color)
    ensures
        c == spec_light_blue(),
{
    Color::rgb(0, 223, 252)
}

pub open spec fn spec_blue() -> Color {
    Color::spec_rgb(0, 180, 204)
}

#[verifier::when_used_as_spec(spec_blue)]
pub fn blue() -> (c: Color)
    ensures
        c == spec_blue(),
{
    Color::rgb(0, 180, 204)
}

pub open spec fn spec_light_red() -> Color {
    Color::spec_rgb(252, 45, 45)
}

#[verifier::when_used_as_spec(spec_light_red)]
pub fn light_red() -> (c: Color)
    ensures
        c == spec_light_red(),
{
    Color::rgb(252, 45, 45)
}

pub open spec fn spec_red() -> Color {
    Color::spec_rgb(223, 0, 0)
}

#[verifier::when_used_as_spec(spec_red)]
pub fn red() -> (c: Color)
    ensures
        c == spec_red(),
{
    Color::rgb(223, 0, 0)
}

pub open spec fn spec_light_green() -> Color {
    Color::spec_rgb(45, 252, 45)
}

#[verifier::when_used_as_spec(spec_light_green)]
pub fn light_green() -> (c: Color)
    ensures
        c == spec_light_green(),
{
    Color::rgb(45, 252, 45)
}

pub open spec fn spec_green() -> Color {
    Color::spec_rgb(0, 223, 0)
}

#[verifier::when_used_as_spec(spec_green)]
pub fn green() -> (c: Color)
    ensures
        c == spec_green(),
{
    Color::rgb(0, 223, 0)
}

pub open spec fn spec_light_yellow() -> Color {
    Color::spec_rgb(255, 255, 170)
}

#[verifier::when_used_as_spec(spec_light_yellow)]
pub fn light_yellow() -> (c: Color)
    ensures
        c == spec_light_yellow(),
{
    Color::rgb(255, 255, 170)
}

pub open spec fn spec_yellow() -> Color {
    Color::spec_rgb(255, 255, 130)
}

#[verifier::when_used_as_spec(spec_yellow)]
pub fn yellow() -> (c: Color)
    ensures
        c == spec_yellow(),
{
    Color::rgb(255, 255, 130)
}

pub open spec fn spec_grey() -> Color {
    Color::spec_rgb(52, 56, 56)
}

#[verifier::when_used_as_spec(spec_grey)]
pub fn grey() -> (c: Color)
    ensures
        c == spec_grey(),
{
    Color::rgb(52, 56, 56)
}

/// The status-bar palette for each mode: blue for normal operation and exit,
/// red for errors, green for successes, yellow for command entry; the third
/// segment is always the neutral grey filler.
pub open spec fn mode_colors_spec(m: Mode) -> Colors {
    match m {
        Mode::Normal | Mode::MultiNormal | Mode::Exit => Colors {
            primary: spec_light_blue(),
            secondary: spec_blue(),
            tertiary: spec_grey(),
        },
        Mode::Error(_) => Colors {
            primary: spec_light_red(),
            secondary: spec_red(),
            tertiary: spec_grey(),
        },
        Mode::Success(_) => Colors {
            primary: spec_light_green(),
            secondary: spec_green(),
            tertiary: spec_grey(),
        },
        Mode::Command(_) => Colors {
            primary: spec_light_yellow(),
            secondary: spec_yellow(),
            tertiary: spec_grey(),
        },
    }
}

/// Resolves the status-bar palette for a mode; total over every variant,
/// whatever message a parameterized variant carries.
pub fn mode_colors(m: &Mode) -> (c: Colors)
    ensures
        c == mode_colors_spec(*m),
{
    match m {
        Mode::Normal | Mode::MultiNormal => Colors {
            primary: light_blue(),
            secondary: blue(),
            tertiary: grey(),
        },
        Mode::Error(_) => Colors { primary: light_red(), secondary: red(), tertiary: grey() },
        Mode::Success(_) => Colors { primary: light_green(), secondary: green(), tertiary: grey() },
        Mode::Command(_) => Colors {
            primary: light_yellow(),
            secondary: yellow(),
            tertiary: grey(),
        },
        Mode::Exit => Colors { primary: light_blue(), secondary: blue(), tertiary: grey() },
    }
}

/// The status-bar text color for each mode: light on the red error bar,
/// dark everywhere else.
pub open spec fn mode_text_color_spec(m: Mode) -> Color {
    match m {
        Mode::Error(_) => spec_light_text_color(),
        _ => spec_dark_text_color(),
    }
}

/// Resolves the status-bar text color for a mode; total over every variant.
pub fn mode_text_color(m: &Mode) -> (c: Color)
    ensures
        c == mode_text_color_spec(*m),
{
    match m {
        Mode::Normal | Mode::MultiNormal | Mode::Exit | Mode::Command(_) | Mode::Success(_) => {
            dark_text_color()
        },
        Mode::Error(_) => light_text_color(),
    }
}

} // verus!
