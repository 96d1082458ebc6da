//! User-facing state the render core consumes: interaction mode, overlay
//! toggles and the per-image view transform.

use vstd::prelude::*;
use crate::geometry::Scale;

verus! {

/// The interaction mode the viewer is in. Transitions between modes are
/// driven by the surrounding command interpreter; the render core only reads
/// the mode to pick status-bar colors and text.
#[derive(Debug)]
pub enum Mode {
    /// Normal image-viewing mode.
    Normal,
    /// Normal mode with a repeat count pending.
    MultiNormal,
    /// A command failed; the message is shown in the status bar.
    Error(String),
    /// A command succeeded; the message is shown in the status bar.
    Success(String),
    /// Command entry in progress; the partial input is shown.
    Command(String),
    /// The viewer is shutting down.
    Exit,
}

/// The quarter-turn the image is displayed at. Rotation is a rendering-time
/// transform around the destination rectangle's center; the texture's pixels
/// are never rotated in place.
#[derive(Clone, Copy, Debug, PartialEq, Eq, Structural)]
pub enum RotAngle {
    Up,
    Right,
    Down,
    Left,
}

/// Which canned help table, if any, is overlaid on the frame.
#[derive(Clone, Copy, Debug, PartialEq, Eq, Structural)]
pub enum HelpRender {
    /// No help overlay.
    Off,
    /// The keybinding reference.
    Normal,
    /// The command-mode reference.
    Command,
}

/// The view transform for the current image: scale, pan in device pixels,
/// quarter-turn rotation and mirror flips. Reset to the post-load defaults
/// whenever a new image is loaded.
#[derive(Clone, Copy, Debug, PartialEq, Eq, Structural)]
pub struct ViewState {
    pub scale: Scale,
    pub pan_x: i32,
    pub pan_y: i32,
    pub rot_angle: RotAngle,
    pub flip_horizontal: bool,
    pub flip_vertical: bool,
}

/// Everything the compositor reads besides the cache: the mode, the overlay
/// toggles and the view transform.
#[derive(Debug)]
pub struct UiState {
    pub mode: Mode,
    pub render_infobar: bool,
    pub render_help: HelpRender,
    pub view: ViewState,
}

/// The rotation angle, in degrees clockwise, for each quarter-turn.
pub open spec fn rotation_degrees_spec(rot: RotAngle) -> u32 {
    match rot {
        RotAngle::Up => 0u32,
        RotAngle::Right => 90u32,
        RotAngle::Down => 180u32,
        RotAngle::Left => 270u32,
    }
}

/// Maps each quarter-turn to its angle in degrees clockwise; total over the
/// four variants, each a fixed literal.
pub fn rotation_degrees(rot: &RotAngle) -> (r: u32)
    ensures
        r == rotation_degrees_spec(*rot),
        r == 0 || r == 90 || r == 180 || r == 270,
{
    match rot {
        RotAngle::Up => 0,
        RotAngle::Right => 90,
        RotAngle::Down => 180,
        RotAngle::Left => 270,
    }
}

} // verus!
