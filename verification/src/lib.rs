//! A continuous (swept) collision-and-sliding kernel for 2D games.
//!
//! A moving circle is swept against static obstacles (infinite lines, line
//! segments, points, circles) without tunnelling, and its movement is
//! redirected ("slid") along the surfaces it strikes, including corners where
//! several surfaces act at once.
//!
//! All geometry is carried in fixed-point world units (see [`geo::fixed`]),
//! so every operation has an exact, machine-checked description.

pub mod color;
pub mod display_buffer;
pub mod display_text;
pub mod gamepad;
pub mod geo;
pub mod keyboard;
pub mod mouse;
