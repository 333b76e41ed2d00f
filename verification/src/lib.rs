//! A single-pass frame graph with explicit GPU resource staging.
//!
//! The crate models the render-side half of a small rendering plugin:
//! per-frame extraction of simulation state, staging of CPU-side buffer
//! contents and their upload to the device, lazy bind-group and pipeline
//! caches, and a two-node frame graph that turns the staged state into an
//! ordered list of pass actions.  Host-specific work (windowing, the GPU
//! device itself, floating-point matrix math) stays outside; the crate
//! computes every decision from plain values.

pub mod bind_group;
pub mod buffer;
pub mod camera;
pub mod color;
pub mod error;
pub mod extract;
pub mod graph;
pub mod instance;
pub mod layout;
pub mod mesh;
pub mod node;
pub mod pipeline;
pub mod prepare;
