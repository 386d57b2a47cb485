//! Core logic of a bar-spectrum wallpaper renderer.
//!
//! The crate turns a raw little-endian 16-bit magnitude stream into exact
//! bar geometry in normalized device coordinates, keeps the gradient and
//! index buffers that the GPU consumes, and drives the surface-lifecycle
//! state machine that reacts to compositor resize and output events.
//! All coordinates and colors are exact rationals, so every contract can
//! state results exactly instead of within a floating-point tolerance;
//! the thin platform layer converts them to floats at the GPU boundary.

pub mod color;
pub mod decoder;
pub mod driver;
pub mod geometry;
pub mod gpu;
pub mod rational;
pub mod reconciler;
