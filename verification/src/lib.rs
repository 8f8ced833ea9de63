//! A verified model of a GPU resource and draw-call abstraction layer.
//!
//! The crate sits between scene data (meshes, materials, lights, cameras,
//! transforms) and a graphics device.  It manages logical buffer and vertex
//! layout state, assembles per-draw render state, generates shader source
//! from a material description, and drives a multi-pass per-light frame
//! loop.  Every device-side effect is represented by an explicit
//! [`commands::GlCommand`] value; the unverified host executes the command
//! stream against the real device and owns all floating-point math, so
//! floating-point payloads travel through this crate as raw bit patterns.

pub mod assoc;
pub mod commands;
pub mod debug_draw;
pub mod draw_builder;
pub mod layout;
pub mod material;
pub mod names;
pub mod program;
pub mod registry;
pub mod renderer;
pub mod scene;
pub mod shader_gen;
