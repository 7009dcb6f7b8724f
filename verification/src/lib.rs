//! Shader parameter handling.
//!
//! This crate binds application-supplied shader parameter values (scalars,
//! vectors, matrices, buffer handles, texture/sampler pairs) to the named
//! inputs a compiled shader program exposes, and streams the bound values
//! into per-draw-call submission buffers.
//!
//! The expensive name resolution happens once per (program, source) pairing
//! when a link is created; every draw call after that only follows the
//! precomputed indices.

pub mod interface;
pub mod laws;
pub mod shade;
pub mod uniform;
