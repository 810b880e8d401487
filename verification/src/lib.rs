//! Verified core of a small real-time rendering sandbox.
//!
//! The crate holds the algorithmic heart of the renderer — camera
//! orientation state, procedural sphere tessellation, model assembly with
//! a texture cache, sampler binding plans, and the per-frame event
//! decisions — as verified code with explicit contracts.  Everything that
//! touches the graphics context, the window system, or the file system
//! lives outside, hands this crate plain values, and acts on the plans and
//! decisions it returns.

pub mod camera;
pub mod engine;
pub mod error;
pub mod mesh;
pub mod model;
pub mod num;
pub mod program;
pub mod sphere;
pub mod text;
pub mod texture;
pub mod utility;
