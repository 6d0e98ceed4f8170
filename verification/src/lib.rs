//! Core logic of a minimal real-time quad renderer.
//!
//! The library models the decisions of a windowed rendering demo: the render
//! loop's state machine, its fixed-step frame timing, the animated shader
//! uniform, the quad's vertex and index data, and the staged setup of a
//! shader program. Everything that touches the window system or the GPU is
//! kept outside, handed in as plain values, so that each decision is
//! verified for every outcome of the outside work.

pub mod animation;
pub mod events;
pub mod geometry;
pub mod render;
pub mod shader;
pub mod timing;
