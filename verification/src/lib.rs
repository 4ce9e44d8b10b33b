//! Verified core of a small visual-effects playground: the spawn/fade/despawn
//! lifecycle of spiral "bullets" and cursor-trail quads, a Blender-style
//! camera pose, and the world-axes gizmo data.
//!
//! All quantities are exact fixed-point integers: distances and transparency
//! in micro-units (1_000_000 = 1.0), time in milliseconds, screen coordinates
//! in milli-pixels, and camera angles in nano-radians. The rendering engine
//! that draws these effects lives outside this crate; it feeds plain values
//! in and reads plain values back.

pub mod axes;
pub mod bullets;
pub mod camera;
pub mod cursor;
pub mod seq_util;
