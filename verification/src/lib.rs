//! A verified core for a rotating wireframe-cube renderer.
//!
//! The library computes, in exact fixed-point integer arithmetic, everything a
//! frame of the demo needs: the fixed cube geometry, the edge selection over
//! vertex pairs, the two-axis Euler rotation, the orthographic projection onto
//! the pixel grid, and the per-frame angle accumulation. A thin platform layer
//! owns the window, the event loop and the trigonometric evaluation, and hands
//! this crate plain scaled integers.

pub mod angles;
pub mod geometry;
pub mod render;
pub mod rotation;
