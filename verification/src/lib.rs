//! Core logic of a small OpenGL rendering playground: camera motion
//! bookkeeping, keyboard state, mesh and texture data assembly, buffer
//! layout arithmetic, and the shader-program build protocol.
//!
//! Everything here works on plain values (integers, strings, vectors);
//! the renderer that owns the window and the GPU lives outside and feeds
//! these functions with events and raw data.

pub mod camera;
pub mod decimal;
pub mod input;
pub mod layout;
pub mod model;
pub mod shader;
pub mod texture;
