//! Render core of an image viewer.
//!
//! Given the current image selection, a view transform (scale, pan, rotation,
//! flip), an interaction mode and overlay toggles, this crate decides whether
//! the on-screen texture must be reloaded or can be reused, computes the
//! destination rectangle for the image, and composes a frame out of up to
//! three layers (image, status bar, help box) as a list of draw commands for
//! a graphics shell to execute.

pub mod compose;
pub mod geometry;
pub mod help_text;
pub mod program;
pub mod style;
pub mod ui;
