//! Core logic of a small sphere-marching path tracer.
//!
//! The scene is an analytic signed-distance field: lettered glyph strokes,
//! a carved room, and an emissive sun plane. Rendering walks rays through
//! the field (sphere marching), bounces them a fixed number of times, and
//! writes the image as a binary P6 stream assembled from per-worker row
//! blocks.
//!
//! This crate holds the exact, machine-checkable part of that pipeline:
//! the scene's integer-scaled geometry (box fields and their CSG
//! combination, surface priority, glyph stroke tables), the per-step and
//! per-bounce control decisions of the marcher and the tracer, the row
//! partition handed to workers, the pixel scan order and its orientation
//! guarantees, and the P6 framing of the output bytes. The floating-point
//! shading kernel that consumes these pieces lives outside the verified
//! library.

pub mod geom;
pub mod glyphs;
pub mod tiles;
pub mod march;
pub mod ppm;
pub mod raster;
pub mod strokes;
pub mod surface;
